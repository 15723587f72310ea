//! The value classifier: from one raw value to its semantic type.
use vstd::prelude::*;
use vstd::std_specs::convert::FromSpecImpl;
use crate::field_type::{FieldType, FieldTypeView, TimeUnit};
use crate::schema::{document_schema, observed_entries, Schema};
use crate::value::{Document, RawValue};

verus! {

/// A value of another type, wrapped so that conversions into it can be
/// written here.
#[derive(Debug)]
pub struct Wrap<T>(pub T);

impl<T: Clone> Clone for Wrap<T> {
    /// A wrapper of a clone of the value.
    fn clone(&self) -> (r: Self)
        ensures
            cloned(self.0, r.0),
    {
        Wrap(self.0.clone())
    }
}

impl<T> From<T> for Wrap<T> {
    fn from(t: T) -> (r: Self) {
        Wrap(t)
    }
}

impl<T> FromSpecImpl<T> for Wrap<T> {
    open spec fn obeys_from_spec() -> bool {
        true
    }

    open spec fn from_spec(t: T) -> Self {
        Wrap(t)
    }
}

/// The type of each entry of a document, under the entry's name.
pub open spec fn classified_entries(entries: Seq<(String, RawValue)>) -> Seq<
    (Seq<char>, FieldTypeView),
>
    decreases entries,
{
    Seq::new(
        entries.len(),
        |i: int|
            (
                entries[i].0@,
                if 0 <= i < entries.len() {
                    classified(entries[i].1)
                } else {
                    FieldTypeView::Null
                },
            ),
    )
}

/// The semantic type of a raw value.
///
/// Scalars map to the column type of the same kind. A timestamp, an object
/// identifier, a symbol and every kind without a column type of its own are
/// text. A list has the type of its first element, `Null` if it is empty; a
/// nested document has the types of its entries. The undefined marker alone
/// is `Unknown`.
pub open spec fn classified(value: RawValue) -> FieldTypeView
    decreases value,
{
    match value {
        RawValue::Double(_) => FieldTypeView::Float64,
        RawValue::String(_) => FieldTypeView::Utf8,
        RawValue::Array(items) => FieldTypeView::List(
            Box::new(
                if items@.len() > 0 {
                    classified(items@[0])
                } else {
                    FieldTypeView::Null
                },
            ),
        ),
        RawValue::Document(doc) => FieldTypeView::Struct(classified_entries(doc.entries@)),
        RawValue::Boolean(_) => FieldTypeView::Boolean,
        RawValue::Null => FieldTypeView::Null,
        RawValue::Int32(_) => FieldTypeView::Int32,
        RawValue::Int64(_) => FieldTypeView::Int64,
        RawValue::DateTime(_) => FieldTypeView::Datetime(TimeUnit::Milliseconds),
        RawValue::Undefined => FieldTypeView::Unknown,
        _ => FieldTypeView::Utf8,
    }
}

/// Classifies one raw value. Total: every value has a type.
pub fn classify(value: &RawValue) -> (r: FieldType)
    ensures
        r@ == classified(*value),
    decreases value,
{
    match value {
        RawValue::Double(_) => FieldType::Float64,
        RawValue::String(_) => FieldType::Utf8,
        RawValue::Array(items) => {
            let inner = if items.len() > 0 {
                classify(&items[0])
            } else {
                FieldType::Null
            };
            FieldType::List(Box::new(inner))
        },
        RawValue::Document(doc) => FieldType::Struct(classify_document(doc)),
        RawValue::Boolean(_) => FieldType::Boolean,
        RawValue::Null => FieldType::Null,
        RawValue::Int32(_) => FieldType::Int32,
        RawValue::Int64(_) => FieldType::Int64,
        RawValue::Timestamp(_) => FieldType::Utf8,
        RawValue::DateTime(_) => FieldType::Datetime(TimeUnit::Milliseconds),
        RawValue::ObjectId(_) => FieldType::Utf8,
        RawValue::Symbol(_) => FieldType::Utf8,
        RawValue::Undefined => FieldType::Unknown,
        _ => FieldType::Utf8,
    }
}

/// The view of a list of named types.
pub open spec fn named_types_view(fields: Seq<(String, FieldType)>) -> Seq<
    (Seq<char>, FieldTypeView),
> {
    Seq::new(fields.len(), |i: int| (fields[i].0@, fields[i].1@))
}

/// Classifies every entry of a document, in the document's order.
pub fn classify_document(doc: &Document) -> (r: Vec<(String, FieldType)>)
    ensures
        named_types_view(r@) == classified_entries(doc.entries@),
        FieldType::Struct(r)@ == FieldTypeView::Struct(classified_entries(doc.entries@)),
    decreases doc,
{
    let mut fields: Vec<(String, FieldType)> = Vec::new();
    let mut i: usize = 0;
    while i < doc.entries.len()
        invariant
            i <= doc.entries@.len(),
            fields@.len() == i,
            forall|j: int|
                0 <= j < i ==> fields@[j].0@ == doc.entries@[j].0@ && fields@[j].1@ == classified(
                    doc.entries@[j].1,
                ),
        decreases doc.entries@.len() - i,
    {
        let name = doc.entries[i].0.clone();
        let field_type = classify(&doc.entries[i].1);
        fields.push((name, field_type));
        i += 1;
    }
    assert(FieldType::Struct(fields)@ == FieldTypeView::Struct(classified_entries(doc.entries@)))
        by {
        assert(FieldType::Struct(fields)@->Struct_0 =~= classified_entries(doc.entries@));
    }
    fields
}

impl From<&RawValue> for Wrap<FieldType> {
    /// The semantic type of a raw value.
    fn from(value: &RawValue) -> (r: Self)
        ensures
            r.0@ == classified(*value),
    {
        Wrap(classify(value))
    }
}

impl FromSpecImpl<&RawValue> for Wrap<FieldType> {
    open spec fn obeys_from_spec() -> bool {
        false
    }

    open spec fn from_spec(value: &RawValue) -> Self {
        arbitrary()
    }
}

impl From<&Document> for Wrap<Vec<(String, FieldType)>> {
    /// The type of every entry of a document, in the document's order.
    fn from(doc: &Document) -> (r: Self)
        ensures
            named_types_view(r.0@) == classified_entries(doc.entries@),
    {
        Wrap(classify_document(doc))
    }
}

impl FromSpecImpl<&Document> for Wrap<Vec<(String, FieldType)>> {
    open spec fn obeys_from_spec() -> bool {
        false
    }

    open spec fn from_spec(doc: &Document) -> Self {
        arbitrary()
    }
}

impl From<&Document> for Wrap<FieldType> {
    /// The type of a document as a nested value.
    fn from(doc: &Document) -> (r: Self)
        ensures
            r.0@ == FieldTypeView::Struct(classified_entries(doc.entries@)),
    {
        Wrap(FieldType::Struct(classify_document(doc)))
    }
}

impl FromSpecImpl<&Document> for Wrap<FieldType> {
    open spec fn obeys_from_spec() -> bool {
        false
    }

    open spec fn from_spec(doc: &Document) -> Self {
        arbitrary()
    }
}

impl From<&Document> for Wrap<Schema> {
    /// The schema that the document alone gives.
    fn from(doc: &Document) -> (r: Self)
        ensures
            r.0@ == observed_entries(Seq::empty(), doc.entries@, doc.entries@.len() as int),
    {
        Wrap(document_schema(doc))
    }
}

impl FromSpecImpl<&Document> for Wrap<Schema> {
    open spec fn obeys_from_spec() -> bool {
        false
    }

    open spec fn from_spec(doc: &Document) -> Self {
        arbitrary()
    }
}

} // verus!
