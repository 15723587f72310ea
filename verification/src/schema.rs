//! The schema of one pass, and its inference from a sample of documents.
use vstd::prelude::*;
use crate::conversion::{classified, classify};
use crate::field_type::{FieldType, FieldTypeView};
use crate::value::{Document, RawValue};

verus! {

/// The fields of a schema as a sequence of names and types.
pub type Fields = Seq<(Seq<char>, FieldTypeView)>;

/// The least index from `from` on at which `fields` holds the name `name`.
pub open spec fn field_position(fields: Fields, name: Seq<char>, from: int) -> Option<int>
    decreases fields.len() - from,
{
    if from < 0 || from >= fields.len() {
        None
    } else if fields[from].0 == name {
        Some(from)
    } else {
        field_position(fields, name, from + 1)
    }
}

/// Whether no name occurs twice in `fields`.
pub open spec fn names_unique(fields: Fields) -> bool {
    forall|i: int, j: int| 0 <= i < j < fields.len() ==> fields[i].0 != fields[j].0
}

/// The fields after one more candidate type `candidate` was seen for `name`:
/// a known field keeps its place and merges the candidate into its type, a
/// new field goes to the end.
pub open spec fn observed(fields: Fields, name: Seq<char>, candidate: FieldTypeView) -> Fields {
    match field_position(fields, name, 0) {
        Some(i) => fields.update(i, (name, fields[i].1.merge(candidate))),
        None => fields.push((name, candidate.column_type())),
    }
}

/// The fields after the first `upto` entries of a document were seen.
pub open spec fn observed_entries(
    fields: Fields,
    entries: Seq<(String, RawValue)>,
    upto: int,
) -> Fields
    decreases upto,
{
    if upto <= 0 {
        fields
    } else {
        observed(
            observed_entries(fields, entries, upto - 1),
            entries[upto - 1].0@,
            classified(entries[upto - 1].1),
        )
    }
}

/// The fields after the first `upto` documents were seen.
pub open spec fn observed_documents(fields: Fields, documents: Seq<Document>, upto: int) -> Fields
    decreases upto,
{
    if upto <= 0 {
        fields
    } else {
        observed_entries(
            observed_documents(fields, documents, upto - 1),
            documents[upto - 1].entries@,
            documents[upto - 1].entries@.len() as int,
        )
    }
}

/// The schema that a sample gives when at most `sample_size` of its documents
/// are read: every entry of every document read, in order, is observed.
pub open spec fn inferred_fields(sample: Seq<Document>, sample_size: nat) -> Fields {
    observed_documents(
        Seq::empty(),
        sample,
        if sample_size <= sample.len() {
            sample_size as int
        } else {
            sample.len() as int
        },
    )
}

/// What `field_position` finds is a field of that name, and the first one.
pub proof fn lemma_field_position(fields: Fields, name: Seq<char>, from: int)
    requires
        0 <= from,
    ensures
        match field_position(fields, name, from) {
            Some(i) => from <= i < fields.len() && fields[i].0 == name && forall|j: int|
                from <= j < i ==> fields[j].0 != name,
            None => forall|j: int| from <= j < fields.len() ==> fields[j].0 != name,
        },
    decreases fields.len() - from,
{
    if from < fields.len() && fields[from].0 != name {
        lemma_field_position(fields, name, from + 1);
    }
}

/// Observing keeps names unique, keeps every known field at its index under
/// its name, and adds at most the one name observed.
pub proof fn lemma_observed(fields: Fields, name: Seq<char>, candidate: FieldTypeView)
    requires
        names_unique(fields),
    ensures
        names_unique(observed(fields, name, candidate)),
        observed(fields, name, candidate).len() >= fields.len(),
        forall|i: int|
            0 <= i < fields.len() ==> (#[trigger] observed(fields, name, candidate)[i]).0
                == fields[i].0,
{
    lemma_field_position(fields, name, 0);
}

/// Names stay unique however many entries are observed.
pub proof fn lemma_observed_entries_unique(
    fields: Fields,
    entries: Seq<(String, RawValue)>,
    upto: int,
)
    requires
        names_unique(fields),
    ensures
        names_unique(observed_entries(fields, entries, upto)),
    decreases upto,
{
    if upto > 0 {
        lemma_observed_entries_unique(fields, entries, upto - 1);
        lemma_observed(
            observed_entries(fields, entries, upto - 1),
            entries[upto - 1].0@,
            classified(entries[upto - 1].1),
        );
    }
}

/// Names stay unique however many documents are observed.
pub proof fn lemma_observed_documents_unique(fields: Fields, documents: Seq<Document>, upto: int)
    requires
        names_unique(fields),
    ensures
        names_unique(observed_documents(fields, documents, upto)),
    decreases upto,
{
    if upto > 0 {
        lemma_observed_documents_unique(fields, documents, upto - 1);
        lemma_observed_entries_unique(
            observed_documents(fields, documents, upto - 1),
            documents[upto - 1].entries@,
            documents[upto - 1].entries@.len() as int,
        );
    }
}

/// The type that `fields` gives to `name`, if it holds the name.
pub open spec fn type_of(fields: Fields, name: Seq<char>) -> Option<FieldTypeView> {
    match field_position(fields, name, 0) {
        Some(i) => Some(fields[i].1),
        None => None,
    }
}

/// The type of a field after one more candidate was seen for it: the
/// candidate's column type at first, the merge with what was seen before from
/// then on.
pub open spec fn merged_with(seen: Option<FieldTypeView>, candidate: FieldTypeView) -> Option<
    FieldTypeView,
> {
    match seen {
        Some(t) => Some(t.merge(candidate)),
        None => Some(candidate.column_type()),
    }
}

/// The merge of what was seen of `name` before with the types of those of the
/// first `upto` entries that have the name.
pub open spec fn merged_entries(
    seen: Option<FieldTypeView>,
    entries: Seq<(String, RawValue)>,
    upto: int,
    name: Seq<char>,
) -> Option<FieldTypeView>
    decreases upto,
{
    if upto <= 0 {
        seen
    } else {
        let before = merged_entries(seen, entries, upto - 1, name);
        if entries[upto - 1].0@ == name {
            merged_with(before, classified(entries[upto - 1].1))
        } else {
            before
        }
    }
}

/// The merge of what was seen of `name` before with the types of all entries
/// of that name in the first `upto` documents.
pub open spec fn merged_documents(
    seen: Option<FieldTypeView>,
    documents: Seq<Document>,
    upto: int,
    name: Seq<char>,
) -> Option<FieldTypeView>
    decreases upto,
{
    if upto <= 0 {
        seen
    } else {
        merged_entries(
            merged_documents(seen, documents, upto - 1, name),
            documents[upto - 1].entries@,
            documents[upto - 1].entries@.len() as int,
            name,
        )
    }
}

/// Beyond the last field nothing is found.
proof fn lemma_position_beyond(fields: Fields, name: Seq<char>, from: int)
    requires
        from >= fields.len(),
    ensures
        field_position(fields, name, from) is None,
{
}

/// Two lists of fields with the same names give every name the same
/// position.
proof fn lemma_position_by_names(a: Fields, b: Fields, name: Seq<char>, from: int)
    requires
        0 <= from,
        a.len() == b.len(),
        forall|j: int| 0 <= j < a.len() ==> a[j].0 == b[j].0,
    ensures
        field_position(a, name, from) == field_position(b, name, from),
    decreases a.len() - from,
{
    if from < a.len() && a[from].0 != name {
        lemma_position_by_names(a, b, name, from + 1);
    }
}

/// A field pushed at the end is found there by its name if no earlier field
/// has the name, and changes the position of no other name.
proof fn lemma_position_pushed(
    fields: Fields,
    field: (Seq<char>, FieldTypeView),
    name: Seq<char>,
    from: int,
)
    requires
        0 <= from <= fields.len(),
    ensures
        field_position(fields.push(field), name, from) == match field_position(
            fields,
            name,
            from,
        ) {
            Some(i) => Some(i),
            None => if field.0 == name {
                Some(fields.len() as int)
            } else {
                None
            },
        },
    decreases fields.len() - from,
{
    let pushed = fields.push(field);
    if from < fields.len() {
        if fields[from].0 != name {
            lemma_position_pushed(fields, field, name, from + 1);
        }
    } else {
        lemma_position_beyond(pushed, name, from + 1);
    }
}

/// What observing one candidate does to the type of each name: the name
/// observed merges the candidate into what it had, every other name keeps
/// its type.
pub proof fn lemma_observed_type(
    fields: Fields,
    observed_name: Seq<char>,
    candidate: FieldTypeView,
    name: Seq<char>,
)
    ensures
        type_of(observed(fields, observed_name, candidate), name) == if observed_name == name {
            merged_with(type_of(fields, name), candidate)
        } else {
            type_of(fields, name)
        },
{
    let after = observed(fields, observed_name, candidate);
    lemma_field_position(fields, observed_name, 0);
    lemma_field_position(fields, name, 0);
    match field_position(fields, observed_name, 0) {
        Some(i) => {
            lemma_position_by_names(fields, after, name, 0);
        },
        None => {
            lemma_position_pushed(fields, (observed_name, candidate.column_type()), name, 0);
        },
    }
}

/// The type that a name has after entries were observed is the merge of the
/// type it had with the types of the entries of that name.
pub proof fn lemma_observed_entries_type(
    fields: Fields,
    entries: Seq<(String, RawValue)>,
    upto: int,
    name: Seq<char>,
)
    ensures
        type_of(observed_entries(fields, entries, upto), name) == merged_entries(
            type_of(fields, name),
            entries,
            upto,
            name,
        ),
    decreases upto,
{
    if upto > 0 {
        lemma_observed_entries_type(fields, entries, upto - 1, name);
        lemma_observed_type(
            observed_entries(fields, entries, upto - 1),
            entries[upto - 1].0@,
            classified(entries[upto - 1].1),
            name,
        );
    }
}

/// The type that a name has after documents were observed is the merge of
/// the type it had with the types of all their entries of that name.
pub proof fn lemma_observed_documents_type(
    fields: Fields,
    documents: Seq<Document>,
    upto: int,
    name: Seq<char>,
)
    ensures
        type_of(observed_documents(fields, documents, upto), name) == merged_documents(
            type_of(fields, name),
            documents,
            upto,
            name,
        ),
    decreases upto,
{
    if upto > 0 {
        lemma_observed_documents_type(fields, documents, upto - 1, name);
        lemma_observed_entries_type(
            observed_documents(fields, documents, upto - 1),
            documents[upto - 1].entries@,
            documents[upto - 1].entries@.len() as int,
            name,
        );
    }
}

/// An ordered list of named, typed fields. No name occurs twice; the order is
/// that in which the names were first observed.
#[derive(Debug)]
pub struct Schema {
    fields: Vec<(String, FieldType)>,
}

impl View for Schema {
    type V = Fields;

    closed spec fn view(&self) -> Fields {
        Seq::new(self.fields@.len(), |i: int| (self.fields@[i].0@, self.fields@[i].1@))
    }
}

impl Schema {
    /// No name occurs twice.
    #[verifier::type_invariant]
    pub closed spec fn names_differ(self) -> bool {
        names_unique(self@)
    }

    /// A schema without fields.
    pub fn new() -> (r: Schema)
        ensures
            r@ == Seq::<(Seq<char>, FieldTypeView)>::empty(),
    {
        let r = Schema { fields: Vec::new() };
        r
    }

    /// The number of fields.
    pub fn len(&self) -> (r: usize)
        ensures
            r == self@.len(),
    {
        self.fields.len()
    }

    /// The name of the field at `index`.
    pub fn name(&self, index: usize) -> (r: &String)
        requires
            index < self@.len(),
        ensures
            r@ == self@[index as int].0,
    {
        &self.fields[index].0
    }

    /// The type of the field at `index`.
    pub fn field_type(&self, index: usize) -> (r: &FieldType)
        requires
            index < self@.len(),
        ensures
            r@ == self@[index as int].1,
    {
        &self.fields[index].1
    }

    /// The index of the field `name`.
    pub fn index_of(&self, name: &String) -> (r: Option<usize>)
        ensures
            match r {
                Some(i) => field_position(self@, name@, 0) == Some(i as int),
                None => field_position(self@, name@, 0) is None,
            },
    {
        let mut i: usize = 0;
        while i < self.fields.len()
            invariant
                i <= self.fields@.len(),
                self@.len() == self.fields@.len(),
                field_position(self@, name@, 0) == field_position(self@, name@, i as int),
            decreases self.fields@.len() - i,
        {
            if self.fields[i].0 == *name {
                return Some(i);
            }
            i += 1;
        }
        None
    }

    /// The schema after one more candidate type was seen for the field `name`.
    pub fn observe(self, name: &String, candidate: &FieldType) -> (r: Schema)
        ensures
            r@ == observed(self@, name@, candidate@),
    {
        let ghost before = self@;
        proof {
            use_type_invariant(&self);
            lemma_observed(before, name@, candidate@);
            lemma_field_position(before, name@, 0);
        }
        let found = self.index_of(name);
        let mut fields = self.fields;
        match found {
            Some(i) => {
                let merged = fields[i].1.merge(candidate);
                fields.set(i, (name.clone(), merged));
            },
            None => {
                fields.push((name.clone(), candidate.column_type()));
            },
        }
        assert(Seq::new(fields@.len(), |i: int| (fields@[i].0@, fields@[i].1@)) =~= observed(
            before,
            name@,
            candidate@,
        ));
        Schema { fields }
    }
}

/// The schema after every entry of a document was observed, in order.
pub fn observe_document(schema: Schema, document: &Document) -> (r: Schema)
    ensures
        r@ == observed_entries(schema@, document.entries@, document.entries@.len() as int),
{
    let ghost before = schema@;
    let mut schema = schema;
    let mut e: usize = 0;
    while e < document.entries.len()
        invariant
            e <= document.entries@.len(),
            schema@ == observed_entries(before, document.entries@, e as int),
        decreases document.entries@.len() - e,
    {
        let candidate = classify(&document.entries[e].1);
        schema = schema.observe(&document.entries[e].0, &candidate);
        e += 1;
    }
    schema
}

/// The schema that one document alone gives.
pub fn document_schema(document: &Document) -> (r: Schema)
    ensures
        r@ == observed_entries(Seq::empty(), document.entries@, document.entries@.len() as int),
{
    observe_document(Schema::new(), document)
}

/// Infers the schema from a sample, reading at most `infer_schema_len` of its
/// documents. Every entry of every document read is classified, and the types
/// seen for one name are merged by the promotion rule.
pub fn infer_schema(sample: &Vec<Document>, infer_schema_len: usize) -> (r: Schema)
    ensures
        r@ == inferred_fields(sample@, infer_schema_len as nat),
{
    let count = if infer_schema_len <= sample.len() {
        infer_schema_len
    } else {
        sample.len()
    };
    let mut schema = Schema::new();
    let mut d: usize = 0;
    while d < count
        invariant
            d <= count <= sample@.len(),
            schema@ == observed_documents(Seq::empty(), sample@, d as int),
        decreases count - d,
    {
        schema = observe_document(schema, &sample[d]);
        d += 1;
    }
    schema
}

} // verus!
