//! One pass from documents to a table: the stages of the pass as a state
//! machine, and the whole pass over documents that are at hand.
use vstd::prelude::*;
use crate::buffer::{kind_of, Buffer};
use crate::cell::MAX_ROWS;
use crate::error::ComputeError;
use crate::registry::{
    aligned, all_wf, column_cells, finalize_all, first_misaligned, first_unsupported, init_buffers,
    parse_line, parse_lines, row_cell, same_columns, taken_rows, Buffers, Table,
};
use crate::schema::{infer_schema, inferred_fields, Fields, Schema};
use crate::value::{lemma_first_entry, Document, RawValue};

verus! {

/// The stages of a pass. A pass only moves forward, and `Finalized` is its
/// end.
#[derive(Clone, Copy, Debug, PartialEq, Eq, Structural)]
pub enum Stage {
    Uninitialized,
    SchemaInferred,
    BuffersOpen,
    Finalized,
}

impl Stage {
    /// The place of the stage in the order of a pass.
    pub open spec fn rank(self) -> nat {
        match self {
            Stage::Uninitialized => 0,
            Stage::SchemaInferred => 1,
            Stage::BuffersOpen => 2,
            Stage::Finalized => 3,
        }
    }
}

/// Whether the buffers are those of the fields: one for each field, in
/// order, under the field's name and of the kind that holds its type.
pub open spec fn buffers_of(fields: Fields, buffers: Buffers) -> bool {
    &&& buffers.len() == fields.len()
    &&& forall|i: int|
        0 <= i < fields.len() ==> (#[trigger] buffers[i]).0@ == fields[i].0 && kind_of(fields[i].1)
            == Some(buffers[i].1.kind())
}

/// If every buffer has the same length, none is misaligned.
pub proof fn lemma_aligned_none_misaligned(buffers: Buffers, rows: nat, from: int)
    requires
        aligned(buffers, rows),
        0 <= from,
    ensures
        first_misaligned(buffers, from) is None,
    decreases buffers.len() - from,
{
    if from < buffers.len() {
        lemma_aligned_none_misaligned(buffers, rows, from + 1);
    }
}

/// The state of one pass: its stage, its row limit, the schema once
/// inferred, and the open buffers with the number of documents they took.
pub struct Materializer {
    stage: Stage,
    limit: usize,
    schema: Schema,
    buffers: Vec<(String, Buffer)>,
    rows: usize,
}

impl Materializer {
    /// The stage that the pass is in.
    pub closed spec fn stage(self) -> Stage {
        self.stage
    }

    /// The most documents that the pass takes.
    pub closed spec fn limit(self) -> nat {
        self.limit as nat
    }

    /// The schema of the pass; empty until it is inferred.
    pub closed spec fn schema(self) -> Fields {
        self.schema@
    }

    /// The open buffers; none unless the stage is `BuffersOpen`.
    pub closed spec fn buffers(self) -> Buffers {
        self.buffers@
    }

    /// The number of documents taken so far.
    pub closed spec fn rows(self) -> nat {
        self.rows as nat
    }

    /// The invariant of a pass: the open buffers are those of the schema,
    /// each is well formed and holds one cell for every document taken, and
    /// no more documents were taken than the limit allows.
    pub closed spec fn wf(self) -> bool {
        &&& self.rows <= self.limit <= MAX_ROWS
        &&& all_wf(self.buffers@)
        &&& aligned(self.buffers@, self.rows as nat)
        &&& self.stage is BuffersOpen ==> buffers_of(self.schema@, self.buffers@)
        &&& !(self.stage is BuffersOpen) ==> self.buffers@.len() == 0
        &&& self.stage is Uninitialized ==> self.schema@.len() == 0
        &&& (self.stage is Uninitialized || self.stage is SchemaInferred) ==> self.rows == 0
    }

    /// What the invariant says, in terms of the pass's public values.
    pub proof fn lemma_wf(self)
        requires
            self.wf(),
        ensures
            self.rows() <= self.limit() <= MAX_ROWS,
            all_wf(self.buffers()),
            aligned(self.buffers(), self.rows()),
            self.stage() is BuffersOpen ==> buffers_of(self.schema(), self.buffers()),
            !(self.stage() is BuffersOpen) ==> self.buffers().len() == 0,
            self.stage() is Uninitialized ==> self.schema().len() == 0,
            (self.stage() is Uninitialized || self.stage() is SchemaInferred) ==> self.rows() == 0,
    {
    }

    /// A pass that has not begun, for at most `limit` documents, and at most
    /// `MAX_ROWS`.
    pub fn new(limit: usize) -> (r: Materializer)
        ensures
            r.wf(),
            r.stage() == Stage::Uninitialized,
            r.limit() == if limit <= MAX_ROWS {
                limit as nat
            } else {
                MAX_ROWS as nat
            },
            r.rows() == 0,
    {
        let limit = if limit <= MAX_ROWS {
            limit
        } else {
            MAX_ROWS
        };
        Materializer {
            stage: Stage::Uninitialized,
            limit,
            schema: Schema::new(),
            buffers: Vec::new(),
            rows: 0,
        }
    }

    /// The stage that the pass is in.
    pub fn current_stage(&self) -> (r: Stage)
        ensures
            r == self.stage(),
    {
        self.stage
    }

    /// The number of documents taken so far.
    pub fn height(&self) -> (r: usize)
        ensures
            r == self.rows(),
    {
        self.rows
    }

    /// The number of documents that the pass can still take.
    pub fn remaining(&self) -> (r: usize)
        requires
            self.wf(),
        ensures
            r == self.limit() - self.rows(),
    {
        self.limit - self.rows
    }

    /// The error of a step that the stage `stage` does not allow.
    pub open spec fn refused(stage: Stage) -> ComputeError {
        if stage is Finalized {
            ComputeError::Finalized
        } else {
            ComputeError::OutOfOrder
        }
    }

    fn refuse(&self) -> (r: ComputeError)
        ensures
            r == Self::refused(self.stage()),
    {
        match self.stage {
            Stage::Finalized => ComputeError::Finalized,
            _ => ComputeError::OutOfOrder,
        }
    }

    /// The first step: infers the schema from at most `infer_schema_len`
    /// documents of the sample. Refused in every stage but `Uninitialized`.
    pub fn infer_schema(&mut self, sample: &Vec<Document>, infer_schema_len: usize) -> (r: Result<
        (),
        ComputeError,
    >)
        requires
            old(self).wf(),
        ensures
            final(self).wf(),
            old(self).stage().rank() <= final(self).stage().rank(),
            final(self).limit() == old(self).limit(),
            final(self).rows() == old(self).rows(),
            old(self).stage() is Uninitialized ==> {
                &&& r is Ok
                &&& final(self).stage() == Stage::SchemaInferred
                &&& final(self).schema() == inferred_fields(sample@, infer_schema_len as nat)
            },
            !(old(self).stage() is Uninitialized) ==> {
                &&& r == Err::<(), ComputeError>(Self::refused(old(self).stage()))
                &&& *final(self) == *old(self)
            },
    {
        match self.stage {
            Stage::Uninitialized => {
                self.schema = infer_schema(sample, infer_schema_len);
                self.stage = Stage::SchemaInferred;
                Ok(())
            },
            _ => Err(self.refuse()),
        }
    }

    /// The second step: opens one empty buffer for each field of the schema.
    /// Fails, and leaves the pass as it is, on the first field whose type has
    /// no buffer. Refused in every stage but `SchemaInferred`.
    pub fn open_buffers(&mut self) -> (r: Result<(), ComputeError>)
        requires
            old(self).wf(),
        ensures
            final(self).wf(),
            old(self).stage().rank() <= final(self).stage().rank(),
            final(self).limit() == old(self).limit(),
            final(self).rows() == old(self).rows(),
            final(self).schema() == old(self).schema(),
            old(self).stage() is SchemaInferred && first_unsupported(old(self).schema(), 0)
                is None ==> {
                &&& r is Ok
                &&& final(self).stage() == Stage::BuffersOpen
                &&& buffers_of(final(self).schema(), final(self).buffers())
                &&& aligned(final(self).buffers(), 0)
            },
            old(self).stage() is SchemaInferred && first_unsupported(old(self).schema(), 0)
                is Some ==> {
                &&& r matches Err(ComputeError::UnsupportedType { field })
                &&& first_unsupported(old(self).schema(), 0) matches Some(k)
                &&& field@ == old(self).schema()[k].0
                &&& *final(self) == *old(self)
            },
            !(old(self).stage() is SchemaInferred) ==> {
                &&& r == Err::<(), ComputeError>(Self::refused(old(self).stage()))
                &&& *final(self) == *old(self)
            },
    {
        match self.stage {
            Stage::SchemaInferred => {
                match init_buffers(&self.schema, self.limit) {
                    Ok(buffers) => {
                        self.buffers = buffers;
                        self.stage = Stage::BuffersOpen;
                        Ok(())
                    },
                    Err(e) => Err(e),
                }
            },
            _ => Err(self.refuse()),
        }
    }

    /// The repeated step: takes one document. Every buffer grows by one cell,
    /// the document's field of the buffer's name coerced to the buffer's
    /// kind, or null where the document has no such field. Fails with
    /// `RowLimit`, and takes nothing, once as many documents were taken as the
    /// limit allows. Refused in every stage but `BuffersOpen`.
    pub fn push(&mut self, document: &Document) -> (r: Result<(), ComputeError>)
        requires
            old(self).wf(),
        ensures
            final(self).wf(),
            old(self).stage().rank() <= final(self).stage().rank(),
            final(self).limit() == old(self).limit(),
            final(self).schema() == old(self).schema(),
            final(self).stage() == old(self).stage(),
            old(self).stage() is BuffersOpen && old(self).rows() < old(self).limit() ==> {
                &&& r is Ok
                &&& final(self).rows() == old(self).rows() + 1
                &&& same_columns(old(self).buffers(), final(self).buffers())
                &&& forall|i: int|
                    0 <= i < old(self).buffers().len() ==> (#[trigger] final(self).buffers()[i]).1@
                        == old(self).buffers()[i].1@.push(
                        row_cell(
                            old(self).buffers()[i].1.kind(),
                            old(self).buffers()[i].0@,
                            *document,
                        ),
                    )
            },
            old(self).stage() is BuffersOpen && old(self).rows() >= old(self).limit() ==> {
                &&& r == Err::<(), ComputeError>(ComputeError::RowLimit)
                &&& *final(self) == *old(self)
            },
            !(old(self).stage() is BuffersOpen) ==> {
                &&& r == Err::<(), ComputeError>(Self::refused(old(self).stage()))
                &&& *final(self) == *old(self)
            },
    {
        match self.stage {
            Stage::BuffersOpen => {
                if self.rows >= self.limit {
                    return Err(ComputeError::RowLimit);
                }
                parse_line(document, &mut self.buffers);
                self.rows = self.rows + 1;
                Ok(())
            },
            _ => Err(self.refuse()),
        }
    }

    /// The last step: closes every buffer and hands out the table. Each
    /// column has the cells of its buffer, and as many as documents were
    /// taken; a table without columns has no rows. Refused in every stage
    /// but `BuffersOpen`: a pass is finalized once, and a second attempt
    /// fails with `Finalized`.
    pub fn finalize(&mut self) -> (r: Result<Table, ComputeError>)
        requires
            old(self).wf(),
        ensures
            final(self).wf(),
            old(self).stage().rank() <= final(self).stage().rank(),
            final(self).limit() == old(self).limit(),
            final(self).schema() == old(self).schema(),
            final(self).rows() == old(self).rows(),
            old(self).stage() is BuffersOpen ==> {
                &&& r matches Ok(table)
                &&& final(self).stage() == Stage::Finalized
                &&& table.columns().len() == old(self).buffers().len()
                &&& table.rows() == if table.columns().len() > 0 {
                    old(self).rows()
                } else {
                    0
                }
                &&& forall|i: int|
                    0 <= i < old(self).buffers().len() ==> {
                        &&& (#[trigger] table.columns()[i]).0@ == old(self).buffers()[i].0@
                        &&& table.columns()[i].1.kind() == old(self).buffers()[i].1.kind()
                        &&& table.columns()[i].1.cells() == old(self).buffers()[i].1@
                        &&& table.columns()[i].1.cells().len() == old(self).rows()
                    }
            },
            !(old(self).stage() is BuffersOpen) ==> {
                &&& r matches Err(e)
                &&& e == Self::refused(old(self).stage())
                &&& *final(self) == *old(self)
            },
    {
        match self.stage {
            Stage::BuffersOpen => {
                let mut buffers: Vec<(String, Buffer)> = Vec::new();
                core::mem::swap(&mut self.buffers, &mut buffers);
                self.stage = Stage::Finalized;
                proof {
                    lemma_aligned_none_misaligned(buffers@, self.rows as nat, 0);
                }
                let r = finalize_all(buffers);
                r
            },
            _ => Err(self.refuse()),
        }
    }
}

/// The documents of a stream that a pass with the row limit `limit` takes:
/// the first `limit` of them, and never more than a column can hold.
pub open spec fn taken(stream: Seq<Document>, limit: nat) -> Seq<Document> {
    stream.take(
        taken_rows(
            stream.len(),
            if limit <= MAX_ROWS {
                limit
            } else {
                MAX_ROWS as nat
            },
        ) as int,
    )
}

/// A whole pass over documents that are at hand. The schema is inferred from
/// at most `infer_schema_len` documents of `sample`; the first `limit`
/// documents of `stream` are taken in order; the table has one column for
/// each field of the schema, in the schema's order, with one cell for each
/// document taken. Fails only where the type inferred for a field has no
/// buffer.
pub fn read(
    sample: &Vec<Document>,
    infer_schema_len: usize,
    stream: &Vec<Document>,
    limit: usize,
) -> (r: Result<Table, ComputeError>)
    ensures
        match r {
            Ok(table) => {
                let fields = inferred_fields(sample@, infer_schema_len as nat);
                &&& first_unsupported(fields, 0) is None
                &&& table.columns().len() == fields.len()
                &&& table.rows() == if fields.len() > 0 {
                    taken(stream@, limit as nat).len()
                } else {
                    0
                }
                &&& forall|i: int|
                    0 <= i < fields.len() ==> {
                        &&& (#[trigger] table.columns()[i]).0@ == fields[i].0
                        &&& kind_of(fields[i].1) == Some(table.columns()[i].1.kind())
                        &&& table.columns()[i].1.cells() == column_cells(
                            table.columns()[i].1.kind(),
                            fields[i].0,
                            taken(stream@, limit as nat),
                        )
                        &&& table.columns()[i].1.cells().len() == taken(
                            stream@,
                            limit as nat,
                        ).len()
                    }
            },
            Err(e) => {
                let fields = inferred_fields(sample@, infer_schema_len as nat);
                &&& first_unsupported(fields, 0) matches Some(k)
                &&& e matches ComputeError::UnsupportedType { field }
                &&& field@ == fields[k].0
            },
        },
{
    let limit = if limit <= MAX_ROWS {
        limit
    } else {
        MAX_ROWS
    };
    let schema = infer_schema(sample, infer_schema_len);
    let mut buffers = match init_buffers(&schema, limit) {
        Ok(buffers) => buffers,
        Err(e) => {
            return Err(e);
        },
    };
    parse_lines(stream, limit, &mut buffers);
    proof {
        lemma_aligned_none_misaligned(buffers@, taken(stream@, limit as nat).len(), 0);
    }
    finalize_all(buffers)
}

/// The names of the first `upto` columns, each once, in the order in which
/// they first occur.
pub open spec fn distinct_names(cols: Seq<String>, upto: int) -> Seq<Seq<char>>
    decreases upto,
{
    if upto <= 0 {
        Seq::empty()
    } else {
        let before = distinct_names(cols, upto - 1);
        if before.contains(cols[upto - 1]@) {
            before
        } else {
            before.push(cols[upto - 1]@)
        }
    }
}

/// The distinct names hold no name twice, hold the name of each column, and
/// hold no other name.
pub proof fn lemma_distinct_names(cols: Seq<String>, upto: int)
    requires
        upto <= cols.len(),
    ensures
        distinct_names(cols, upto).no_duplicates(),
        forall|j: int| 0 <= j < upto ==> distinct_names(cols, upto).contains(#[trigger] cols[j]@),
        forall|i: int|
            0 <= i < distinct_names(cols, upto).len() ==> exists|j: int|
                0 <= j < upto && cols[j]@ == #[trigger] distinct_names(cols, upto)[i],
    decreases upto,
{
    if upto > 0 {
        lemma_distinct_names(cols, upto - 1);
        let before = distinct_names(cols, upto - 1);
        let after = distinct_names(cols, upto);
        let name = cols[upto - 1]@;
        if before.contains(name) {
            assert forall|j: int| 0 <= j < upto implies after.contains(#[trigger] cols[j]@) by {
                if j < upto - 1 {
                    assert(before.contains(cols[j]@));
                }
            }
            assert forall|i: int| 0 <= i < after.len() implies exists|j: int|
                0 <= j < upto && cols[j]@ == #[trigger] after[i] by {
                let j = choose|j: int| 0 <= j < upto - 1 && cols[j]@ == before[i];
                assert(0 <= j < upto && cols[j]@ == after[i]);
            }
        } else {
            assert(after[before.len() as int] == name);
            assert forall|j: int| 0 <= j < upto implies after.contains(#[trigger] cols[j]@) by {
                if j < upto - 1 {
                    assert(before.contains(cols[j]@));
                    let k = choose|k: int| 0 <= k < before.len() && before[k] == cols[j]@;
                    assert(after[k] == cols[j]@);
                }
            }
            assert forall|i: int| 0 <= i < after.len() implies exists|j: int|
                0 <= j < upto && cols[j]@ == #[trigger] after[i] by {
                if i < before.len() {
                    let j = choose|j: int| 0 <= j < upto - 1 && cols[j]@ == before[i];
                    assert(0 <= j < upto && cols[j]@ == after[i]);
                } else {
                    assert(0 <= upto - 1 < upto && cols[upto - 1]@ == after[i]);
                }
            }
            assert forall|i: int, j: int|
                0 <= i < after.len() && 0 <= j < after.len() && i != j implies after[i]
                != after[j] by {
                if i == before.len() {
                    assert(before[j] == after[j]);
                } else if j == before.len() {
                    assert(before[i] == after[i]);
                }
            }
        }
    }
}

/// Whether a document is the projection of the given names: its entries are
/// the names, in order, each with the number one.
pub open spec fn projects(document: Document, names: Seq<Seq<char>>) -> bool {
    &&& document.entries@.len() == names.len()
    &&& forall|i: int|
        0 <= i < names.len() ==> (#[trigger] document.entries@[i]).0@ == names[i]
            && document.entries@[i].1 == RawValue::Int64(1)
}

/// The projection that asks a document source for the given fields only:
/// each name once, in the order in which the names first occur, with the
/// number one. A name that occurs again is skipped.
pub fn cols_to_mongo_projection(cols: &Vec<String>) -> (r: Document)
    ensures
        projects(r, distinct_names(cols@, cols@.len() as int)),
        forall|i: int, j: int|
            0 <= i < j < r.entries@.len() ==> r.entries@[i].0@ != r.entries@[j].0@,
        forall|j: int|
            0 <= j < cols@.len() ==> r.lookup(#[trigger] cols@[j]@) == Some(RawValue::Int64(1)),
        forall|i: int|
            0 <= i < r.entries@.len() ==> exists|j: int|
                0 <= j < cols@.len() && cols@[j]@ == (#[trigger] r.entries@[i]).0@,
{
    let mut projection = Document::new();
    let mut i: usize = 0;
    while i < cols.len()
        invariant
            i <= cols@.len(),
            projects(projection, distinct_names(cols@, i as int)),
        decreases cols@.len() - i,
    {
        let ghost names = distinct_names(cols@, i as int);
        proof {
            lemma_first_entry(projection.entries@, cols@[i as int]@, 0);
        }
        let known = projection.get(&cols[i]).is_some();
        proof {
            if known {
                let k = projection.position(cols@[i as int]@).unwrap();
                assert(names[k] == cols@[i as int]@);
            } else {
                assert forall|k: int| 0 <= k < names.len() implies names[k] != cols@[i as int]@ by {
                    assert(projection.entries@[k].0@ == names[k]);
                }
            }
            assert(known == names.contains(cols@[i as int]@));
        }
        if !known {
            projection.push(cols[i].clone(), RawValue::Int64(1));
        }
        i += 1;
    }
    proof {
        let names = distinct_names(cols@, cols@.len() as int);
        lemma_distinct_names(cols@, cols@.len() as int);
        assert forall|a: int, b: int| 0 <= a < b < projection.entries@.len() implies
            projection.entries@[a].0@ != projection.entries@[b].0@ by {
            assert(names[a] != names[b]);
        }
        assert forall|j: int| 0 <= j < cols@.len() implies projection.lookup(
            #[trigger] cols@[j]@,
        ) == Some(RawValue::Int64(1)) by {
            lemma_first_entry(projection.entries@, cols@[j]@, 0);
            assert(names.contains(cols@[j]@));
            let k = choose|k: int| 0 <= k < names.len() && names[k] == cols@[j]@;
            assert(projection.entries@[k].0@ == cols@[j]@);
        }
        assert forall|i: int| 0 <= i < projection.entries@.len() implies exists|j: int|
            0 <= j < cols@.len() && cols@[j]@ == (#[trigger] projection.entries@[i]).0@ by {
            let j = choose|j: int| 0 <= j < cols@.len() && cols@[j]@ == names[i];
            assert(cols@[j]@ == projection.entries@[i].0@);
        }
    }
    projection
}

} // verus!
