//! The buffer registry: one buffer for each field of a schema, and the steps
//! that fill the buffers from documents and close them into a table.
use vstd::prelude::*;
use crate::buffer::{column_kind, kind_of, Buffer, Column};
use crate::cell::{Cell, ColumnKind, MAX_ROWS};
use crate::coerce::coerced;
use crate::error::ComputeError;
use crate::schema::{Fields, Schema};
use crate::value::Document;

verus! {

/// The buffers of a pass under their field names, in the order of the schema.
pub type Buffers = Seq<(String, Buffer)>;

/// Whether every buffer is well formed.
pub open spec fn all_wf(buffers: Buffers) -> bool {
    forall|i: int| 0 <= i < buffers.len() ==> (#[trigger] buffers[i]).1.wf()
}

/// Whether every buffer has less than `bound` cells.
pub open spec fn all_below(buffers: Buffers, bound: int) -> bool {
    forall|i: int| 0 <= i < buffers.len() ==> (#[trigger] buffers[i]).1@.len() < bound
}

/// Whether every buffer has `rows` cells.
pub open spec fn aligned(buffers: Buffers, rows: nat) -> bool {
    forall|i: int| 0 <= i < buffers.len() ==> (#[trigger] buffers[i]).1@.len() == rows
}

/// Whether `after` has the buffers of `before`: as many, under the same
/// names, of the same kinds.
pub open spec fn same_columns(before: Buffers, after: Buffers) -> bool {
    &&& after.len() == before.len()
    &&& forall|i: int|
        0 <= i < before.len() ==> (#[trigger] after[i]).0@ == before[i].0@ && after[i].1.kind()
            == before[i].1.kind()
}

/// The least index from `from` on of a field whose type has no buffer.
pub open spec fn first_unsupported(fields: Fields, from: int) -> Option<int>
    decreases fields.len() - from,
{
    if from < 0 || from >= fields.len() {
        None
    } else if !fields[from].1.has_buffer() {
        Some(from)
    } else {
        first_unsupported(fields, from + 1)
    }
}

/// The cell that a document gives to the column `name` of kind `kind`: its
/// field of that name coerced, null where it has no such field.
pub open spec fn row_cell(kind: ColumnKind, name: Seq<char>, document: Document) -> Cell {
    match document.lookup(name) {
        Some(value) => coerced(kind, value),
        None => None,
    }
}

/// The cells that a sequence of documents gives to one column, a cell for
/// each document, in their order.
pub open spec fn column_cells(kind: ColumnKind, name: Seq<char>, documents: Seq<Document>) -> Seq<
    Cell,
> {
    Seq::new(documents.len(), |i: int| row_cell(kind, name, documents[i]))
}

/// Makes one empty buffer for each field of the schema, in the schema's
/// order, each with room for `capacity` rows. Fails on the first field whose
/// type has no buffer.
pub fn init_buffers(schema: &Schema, capacity: usize) -> (r: Result<
    Vec<(String, Buffer)>,
    ComputeError,
>)
    ensures
        match r {
            Ok(buffers) => {
                &&& first_unsupported(schema@, 0) is None
                &&& buffers@.len() == schema@.len()
                &&& all_wf(buffers@)
                &&& aligned(buffers@, 0)
                &&& forall|i: int|
                    0 <= i < schema@.len() ==> (#[trigger] buffers@[i]).0@ == schema@[i].0
                        && kind_of(schema@[i].1) == Some(buffers@[i].1.kind())
            },
            Err(e) => {
                &&& first_unsupported(schema@, 0) matches Some(k)
                &&& e matches ComputeError::UnsupportedType { field }
                &&& field@ == schema@[k].0
            },
        },
{
    let mut buffers: Vec<(String, Buffer)> = Vec::new();
    let mut i: usize = 0;
    while i < schema.len()
        invariant
            i <= schema@.len(),
            buffers@.len() == i,
            first_unsupported(schema@, 0) == first_unsupported(schema@, i as int),
            all_wf(buffers@),
            aligned(buffers@, 0),
            forall|j: int|
                0 <= j < i ==> (#[trigger] buffers@[j]).0@ == schema@[j].0 && kind_of(
                    schema@[j].1,
                ) == Some(buffers@[j].1.kind()),
        decreases schema@.len() - i,
    {
        let name = schema.name(i);
        match column_kind(schema.field_type(i)) {
            Some(kind) => {
                let buffer = Buffer::new(name.as_str(), kind, capacity);
                buffers.push((name.clone(), buffer));
            },
            None => {
                return Err(ComputeError::UnsupportedType { field: name.clone() });
            },
        }
        i += 1;
    }
    Ok(buffers)
}

/// Takes one document: every buffer grows by exactly one cell, the
/// document's field of the buffer's name coerced to the buffer's kind, or
/// null where the document has no such field. Fields of the document that
/// no buffer is named after play no part.
pub fn parse_line(document: &Document, buffers: &mut Vec<(String, Buffer)>)
    requires
        all_wf(old(buffers)@),
        all_below(old(buffers)@, MAX_ROWS as int),
    ensures
        same_columns(old(buffers)@, final(buffers)@),
        all_wf(final(buffers)@),
        forall|i: int|
            0 <= i < old(buffers)@.len() ==> (#[trigger] final(buffers)@[i]).1@ == old(
                buffers,
            )@[i].1@.push(row_cell(old(buffers)@[i].1.kind(), old(buffers)@[i].0@, *document)),
{
    let mut i: usize = 0;
    while i < buffers.len()
        invariant
            i <= buffers@.len(),
            buffers@.len() == old(buffers)@.len(),
            same_columns(old(buffers)@, buffers@),
            all_wf(buffers@),
            forall|j: int|
                0 <= j < i ==> (#[trigger] buffers@[j]).1@ == old(buffers)@[j].1@.push(
                    row_cell(old(buffers)@[j].1.kind(), old(buffers)@[j].0@, *document),
                ),
            forall|j: int| i <= j < buffers@.len() ==> (#[trigger] buffers@[j]) == old(buffers)@[j],
            all_below(old(buffers)@, MAX_ROWS as int),
        decreases buffers@.len() - i,
    {
        match document.get(&buffers[i].0) {
            Some(value) => buffers[i].1.add(value),
            None => buffers[i].1.add_null(),
        }
        i += 1;
    }
}

/// The cells of each buffer after a sequence of documents was taken: the
/// cells before, then one cell for each document.
pub open spec fn filled(before: Buffers, after: Buffers, documents: Seq<Document>) -> bool {
    forall|i: int|
        0 <= i < before.len() ==> (#[trigger] after[i]).1@ == before[i].1@ + column_cells(
            before[i].1.kind(),
            before[i].0@,
            documents,
        )
}

/// The number of documents that are taken of `available` under a row limit.
pub open spec fn taken_rows(available: nat, limit: nat) -> nat {
    if available <= limit {
        available
    } else {
        limit
    }
}

/// Takes the documents in their order, each as `parse_line` takes it, and no
/// more of them than `limit`. Every buffer grows by one cell for each
/// document taken, and the cell of a document without a field of the
/// buffer's name is null.
pub fn parse_lines(documents: &Vec<Document>, limit: usize, buffers: &mut Vec<(String, Buffer)>)
    requires
        all_wf(old(buffers)@),
        all_below(
            old(buffers)@,
            MAX_ROWS - taken_rows(documents@.len(), limit as nat) + 1,
        ),
    ensures
        same_columns(old(buffers)@, final(buffers)@),
        all_wf(final(buffers)@),
        filled(
            old(buffers)@,
            final(buffers)@,
            documents@.take(taken_rows(documents@.len(), limit as nat) as int),
        ),
        forall|i: int|
            0 <= i < old(buffers)@.len() ==> (#[trigger] final(buffers)@[i]).1@.len() == old(
                buffers,
            )@[i].1@.len() + taken_rows(documents@.len(), limit as nat),
        forall|i: int, row: int|
            #![trigger final(buffers)@[i], documents@[row]]
            0 <= i < old(buffers)@.len() && 0 <= row < taken_rows(documents@.len(), limit as nat)
                && !documents@[row].has(old(buffers)@[i].0@) ==> final(buffers)@[i].1@[old(
                buffers,
            )@[i].1@.len() + row] is None,
{
    let count = if documents.len() <= limit {
        documents.len()
    } else {
        limit
    };
    let mut d: usize = 0;
    while d < count
        invariant
            d <= count <= documents@.len(),
            same_columns(old(buffers)@, buffers@),
            all_wf(buffers@),
            all_below(old(buffers)@, MAX_ROWS - count + 1),
            filled(old(buffers)@, buffers@, documents@.take(d as int)),
        decreases count - d,
    {
        parse_line(&documents[d], buffers);
        assert forall|i: int| 0 <= i < old(buffers)@.len() implies (#[trigger] buffers@[i]).1@
            == old(buffers)@[i].1@ + column_cells(
            old(buffers)@[i].1.kind(),
            old(buffers)@[i].0@,
            documents@.take(d + 1),
        ) by {
            let kind = old(buffers)@[i].1.kind();
            let name = old(buffers)@[i].0@;
            assert(column_cells(kind, name, documents@.take(d + 1)) =~= column_cells(
                kind,
                name,
                documents@.take(d as int),
            ).push(row_cell(kind, name, documents@[d as int])));
        }
        d += 1;
    }
}

/// The least index from `from` on of a buffer that has another length than
/// the first buffer.
pub open spec fn first_misaligned(buffers: Buffers, from: int) -> Option<int>
    decreases buffers.len() - from,
{
    if from < 0 || from >= buffers.len() {
        None
    } else if buffers[from].1@.len() != buffers[0].1@.len() {
        Some(from)
    } else {
        first_misaligned(buffers, from + 1)
    }
}

/// The immutable result of a pass: named columns in the order of the schema,
/// all of one length.
#[derive(Debug)]
pub struct Table {
    columns: Vec<(String, Column)>,
    rows: usize,
}

impl Table {
    /// The columns under their names, in order.
    pub closed spec fn columns(self) -> Seq<(String, Column)> {
        self.columns@
    }

    /// The number of rows.
    pub closed spec fn rows(self) -> nat {
        self.rows as nat
    }

    /// Every column has as many cells as the table has rows.
    #[verifier::type_invariant]
    pub closed spec fn columns_of_one_length(self) -> bool {
        forall|i: int|
            0 <= i < self.columns@.len() ==> (#[trigger] self.columns@[i]).1.cells().len()
                == self.rows
    }

    /// The number of columns.
    pub fn width(&self) -> (r: usize)
        ensures
            r == self.columns().len(),
    {
        self.columns.len()
    }

    /// The number of rows, which is the length of every column.
    pub fn height(&self) -> (r: usize)
        ensures
            r == self.rows(),
            forall|i: int|
                0 <= i < self.columns().len() ==> (#[trigger] self.columns()[i]).1.cells().len()
                    == r,
    {
        proof {
            use_type_invariant(self);
        }
        self.rows
    }

    /// The name of the column at `index`.
    pub fn name(&self, index: usize) -> (r: &String)
        requires
            index < self.columns().len(),
        ensures
            r@ == self.columns()[index as int].0@,
    {
        &self.columns[index].0
    }

    /// The column at `index`.
    pub fn column(&self, index: usize) -> (r: &Column)
        requires
            index < self.columns().len(),
        ensures
            *r == self.columns()[index as int].1,
            r.cells().len() == self.rows(),
    {
        proof {
            use_type_invariant(self);
        }
        &self.columns[index].1
    }

    /// Hands out the columns under their names, in order.
    pub fn into_columns(self) -> (r: Vec<(String, Column)>)
        ensures
            r@ == self.columns(),
            forall|i: int| 0 <= i < r@.len() ==> (#[trigger] r@[i]).1.cells().len() == self.rows(),
    {
        proof {
            use_type_invariant(&self);
        }
        self.columns
    }
}

/// Closes every buffer and assembles the columns into a table, in the order
/// of the buffers. Fails on the first buffer that has another length than the
/// first one.
pub fn finalize_all(buffers: Vec<(String, Buffer)>) -> (r: Result<Table, ComputeError>)
    requires
        all_wf(buffers@),
    ensures
        match r {
            Ok(table) => {
                &&& first_misaligned(buffers@, 0) is None
                &&& table.columns().len() == buffers@.len()
                &&& buffers@.len() > 0 ==> table.rows() == buffers@[0].1@.len()
                &&& buffers@.len() == 0 ==> table.rows() == 0
                &&& forall|i: int|
                    0 <= i < buffers@.len() ==> {
                        &&& (#[trigger] table.columns()[i]).0@ == buffers@[i].0@
                        &&& table.columns()[i].1.kind() == buffers@[i].1.kind()
                        &&& table.columns()[i].1.cells() == buffers@[i].1@
                    }
            },
            Err(e) => {
                &&& first_misaligned(buffers@, 0) matches Some(k)
                &&& e matches ComputeError::LengthMismatch { field }
                &&& field@ == buffers@[k].0@
            },
        },
{
    let rows = if buffers.len() > 0 {
        buffers[0].1.len()
    } else {
        0
    };
    let mut i: usize = 0;
    while i < buffers.len()
        invariant
            i <= buffers@.len(),
            all_wf(buffers@),
            buffers@.len() > 0 ==> rows == buffers@[0].1@.len(),
            first_misaligned(buffers@, 0) == first_misaligned(buffers@, i as int),
            forall|j: int| 0 <= j < i ==> (#[trigger] buffers@[j]).1@.len() == rows,
        decreases buffers@.len() - i,
    {
        if buffers[i].1.len() != rows {
            return Err(ComputeError::LengthMismatch { field: buffers[i].0.clone() });
        }
        i += 1;
    }
    let ghost all = buffers@;
    let mut open = buffers;
    let mut reversed: Vec<(String, Column)> = Vec::new();
    while open.len() > 0
        invariant
            open@.len() + reversed@.len() == all.len(),
            open@ == all.take(open@.len() as int),
            all_wf(all),
            forall|j: int| 0 <= j < all.len() ==> (#[trigger] all[j]).1@.len() == rows,
            forall|j: int|
                0 <= j < reversed@.len() ==> {
                    &&& (#[trigger] reversed@[j]).0@ == all[all.len() - 1 - j].0@
                    &&& reversed@[j].1.kind() == all[all.len() - 1 - j].1.kind()
                    &&& reversed@[j].1.cells() == all[all.len() - 1 - j].1@
                },
        decreases open@.len(),
    {
        let (name, buffer) = open.pop().unwrap();
        let column = buffer.finalize();
        reversed.push((name, column));
    }
    let mut columns: Vec<(String, Column)> = Vec::new();
    while reversed.len() > 0
        invariant
            columns@.len() + reversed@.len() == all.len(),
            forall|j: int|
                0 <= j < reversed@.len() ==> {
                    &&& (#[trigger] reversed@[j]).0@ == all[all.len() - 1 - j].0@
                    &&& reversed@[j].1.kind() == all[all.len() - 1 - j].1.kind()
                    &&& reversed@[j].1.cells() == all[all.len() - 1 - j].1@
                },
            forall|j: int|
                0 <= j < columns@.len() ==> {
                    &&& (#[trigger] columns@[j]).0@ == all[j].0@
                    &&& columns@[j].1.kind() == all[j].1.kind()
                    &&& columns@[j].1.cells() == all[j].1@
                },
            forall|j: int| 0 <= j < all.len() ==> (#[trigger] all[j]).1@.len() == rows,
        decreases reversed@.len(),
    {
        let pair = reversed.pop().unwrap();
        columns.push(pair);
    }
    Ok(Table { columns, rows })
}

} // verus!
