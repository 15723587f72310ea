//! The column buffer: typed, append-only storage for one column.
use vstd::prelude::*;
use polars_core::prelude::{BooleanChunkedBuilder, Series, Utf8ChunkedBuilder};
use crate::cell::{float_cells, Cell, ColumnKind, Number, MAX_CAPACITY, MAX_ROWS};
use crate::coerce::coerced;
use crate::column::{
    boolean_builder_append, boolean_builder_cells, boolean_builder_finish, boolean_builder_new,
    int32_builder_append, int32_builder_cells, int32_builder_finish, int32_builder_finish_date,
    int32_builder_new, int64_builder_append, int64_builder_cells, int64_builder_finish,
    int64_builder_finish_datetime, int64_builder_new, series_cells, series_type,
    uint32_builder_append, uint32_builder_cells, uint32_builder_finish, uint32_builder_new,
    uint64_builder_append, uint64_builder_cells, uint64_builder_finish, uint64_builder_new,
    utf8_builder_append, utf8_builder_cells, utf8_builder_finish, utf8_builder_new, Int32Builder,
    Int64Builder, UInt32Builder, UInt64Builder,
};
use crate::field_type::{FieldType, FieldTypeView, TimeUnit};
use crate::numeric::{
    deserialize_float, deserialize_i32, deserialize_i64, deserialize_u32, deserialize_u64,
};
use crate::temporal::{deserialize_date, deserialize_datetime};
use crate::text::deserialize_text;
use crate::value::RawValue;

verus! {

/// The storage behind a buffer, one variant for each kind of column. A
/// column of floating point numbers keeps the numbers as they were admitted.
enum Storage {
    Boolean(BooleanChunkedBuilder),
    Int32(Int32Builder),
    Int64(Int64Builder),
    UInt32(UInt32Builder),
    UInt64(UInt64Builder),
    Float32(Vec<Option<Number>>),
    Float64(Vec<Option<Number>>),
    Utf8(Utf8ChunkedBuilder),
    Datetime(Int64Builder, TimeUnit),
    Date(Int32Builder),
}

impl Storage {
    /// The kind of column that the storage is for.
    spec fn kind(self) -> ColumnKind {
        match self {
            Storage::Boolean(_) => ColumnKind::Boolean,
            Storage::Int32(_) => ColumnKind::Int32,
            Storage::Int64(_) => ColumnKind::Int64,
            Storage::UInt32(_) => ColumnKind::UInt32,
            Storage::UInt64(_) => ColumnKind::UInt64,
            Storage::Float32(_) => ColumnKind::Float32,
            Storage::Float64(_) => ColumnKind::Float64,
            Storage::Utf8(_) => ColumnKind::Utf8,
            Storage::Datetime(_, unit) => ColumnKind::Datetime(unit),
            Storage::Date(_) => ColumnKind::Date,
        }
    }

    /// The cells stored, first to last.
    spec fn cells(self) -> Seq<Cell> {
        match self {
            Storage::Boolean(b) => boolean_builder_cells(b),
            Storage::Int32(b) => int32_builder_cells(b),
            Storage::Int64(b) => int64_builder_cells(b),
            Storage::UInt32(b) => uint32_builder_cells(b),
            Storage::UInt64(b) => uint64_builder_cells(b),
            Storage::Float32(numbers) => float_cells(numbers@),
            Storage::Float64(numbers) => float_cells(numbers@),
            Storage::Utf8(b) => utf8_builder_cells(b),
            Storage::Datetime(b, _) => int64_builder_cells(b),
            Storage::Date(b) => int32_builder_cells(b),
        }
    }
}

/// The data of a closed column.
#[derive(Debug)]
pub enum ColumnData {
    /// The column, closed and of its final type.
    Closed(Series),
    /// The numbers of a floating point column in the order of its rows, null
    /// as `None`. Each becomes the nearest floating point number of the
    /// column's width where the column is rendered.
    Numbers(Vec<Option<Number>>),
}

/// A closed column: immutable, of one kind, of fixed length.
#[derive(Debug)]
pub struct Column {
    kind: ColumnKind,
    data: ColumnData,
}

impl Column {
    /// The kind of buffer that the column was closed from.
    pub closed spec fn kind(self) -> ColumnKind {
        self.kind
    }

    /// The cells of the column, first to last.
    pub closed spec fn cells(self) -> Seq<Cell> {
        match self.data {
            ColumnData::Closed(series) => series_cells(series),
            ColumnData::Numbers(numbers) => float_cells(numbers@),
        }
    }

    /// The data of the column.
    pub closed spec fn data(self) -> ColumnData {
        self.data
    }

    /// A column of floating point numbers holds the numbers themselves, every
    /// other column is closed and of the type of its kind.
    #[verifier::type_invariant]
    pub closed spec fn data_of_kind(self) -> bool {
        match self.data {
            ColumnData::Closed(series) => !self.kind.is_floating() && series_type(series)
                == column_type_of(self.kind),
            ColumnData::Numbers(_) => self.kind.is_floating(),
        }
    }

    /// The kind of buffer that the column was closed from.
    pub fn column_kind(&self) -> (r: ColumnKind)
        ensures
            r == self.kind(),
    {
        self.kind
    }

    /// The type of the column.
    pub fn field_type(&self) -> (r: FieldType)
        ensures
            r@ == column_type_of(self.kind()),
    {
        match self.kind {
            ColumnKind::Boolean => FieldType::Boolean,
            ColumnKind::Int32 => FieldType::Int32,
            ColumnKind::Int64 => FieldType::Int64,
            ColumnKind::UInt32 => FieldType::UInt32,
            ColumnKind::UInt64 => FieldType::UInt64,
            ColumnKind::Float32 => FieldType::Float32,
            ColumnKind::Float64 => FieldType::Float64,
            ColumnKind::Utf8 => FieldType::Utf8,
            ColumnKind::Datetime(unit) => FieldType::Datetime(unit),
            ColumnKind::Date => FieldType::Date,
        }
    }

    /// Hands out the data of the column.
    pub fn into_data(self) -> (r: ColumnData)
        ensures
            r == self.data(),
            match r {
                ColumnData::Closed(series) => {
                    &&& !self.kind().is_floating()
                    &&& series_cells(series) == self.cells()
                    &&& series_type(series) == column_type_of(self.kind())
                },
                ColumnData::Numbers(numbers) => {
                    &&& self.kind().is_floating()
                    &&& float_cells(numbers@) == self.cells()
                },
            },
    {
        proof {
            use_type_invariant(&self);
        }
        self.data
    }
}

/// The type of a closed column of the given kind.
pub open spec fn column_type_of(kind: ColumnKind) -> FieldTypeView {
    match kind {
        ColumnKind::Boolean => FieldTypeView::Boolean,
        ColumnKind::Int32 => FieldTypeView::Int32,
        ColumnKind::Int64 => FieldTypeView::Int64,
        ColumnKind::UInt32 => FieldTypeView::UInt32,
        ColumnKind::UInt64 => FieldTypeView::UInt64,
        ColumnKind::Float32 => FieldTypeView::Float32,
        ColumnKind::Float64 => FieldTypeView::Float64,
        ColumnKind::Utf8 => FieldTypeView::Utf8,
        ColumnKind::Datetime(unit) => FieldTypeView::Datetime(unit),
        ColumnKind::Date => FieldTypeView::Date,
    }
}

/// The kind of buffer that holds a field of the given type, if there is one.
/// A column of date-times counts in the unit of the field's type.
pub open spec fn kind_of(field_type: FieldTypeView) -> Option<ColumnKind> {
    match field_type {
        FieldTypeView::Boolean => Some(ColumnKind::Boolean),
        FieldTypeView::Int32 => Some(ColumnKind::Int32),
        FieldTypeView::Int64 => Some(ColumnKind::Int64),
        FieldTypeView::UInt32 => Some(ColumnKind::UInt32),
        FieldTypeView::UInt64 => Some(ColumnKind::UInt64),
        FieldTypeView::Float32 => Some(ColumnKind::Float32),
        FieldTypeView::Float64 => Some(ColumnKind::Float64),
        FieldTypeView::Utf8 => Some(ColumnKind::Utf8),
        FieldTypeView::Datetime(unit) => Some(ColumnKind::Datetime(unit)),
        FieldTypeView::Date => Some(ColumnKind::Date),
        _ => None,
    }
}

/// The kind of buffer that holds a field of the given type.
pub fn column_kind(field_type: &FieldType) -> (r: Option<ColumnKind>)
    ensures
        r == kind_of(field_type@),
        r is Some == field_type@.has_buffer(),
{
    match field_type {
        FieldType::Boolean => Some(ColumnKind::Boolean),
        FieldType::Int32 => Some(ColumnKind::Int32),
        FieldType::Int64 => Some(ColumnKind::Int64),
        FieldType::UInt32 => Some(ColumnKind::UInt32),
        FieldType::UInt64 => Some(ColumnKind::UInt64),
        FieldType::Float32 => Some(ColumnKind::Float32),
        FieldType::Float64 => Some(ColumnKind::Float64),
        FieldType::Utf8 => Some(ColumnKind::Utf8),
        FieldType::Datetime(unit) => Some(ColumnKind::Datetime(*unit)),
        FieldType::Date => Some(ColumnKind::Date),
        _ => None,
    }
}

/// Typed, growable, append-only storage for one column. It keeps one cell
/// for every value or null that was appended, in that order.
pub struct Buffer {
    storage: Storage,
    rows: usize,
}

impl View for Buffer {
    type V = Seq<Cell>;

    /// The cells appended so far, first to last.
    closed spec fn view(&self) -> Seq<Cell> {
        self.storage.cells()
    }
}

impl Buffer {
    /// The kind of the column.
    pub closed spec fn kind(self) -> ColumnKind {
        self.storage.kind()
    }

    /// The buffer's count of rows is the number of its cells, and no more
    /// than a column can have.
    pub closed spec fn wf(self) -> bool {
        self.rows == self.storage.cells().len() && self.rows <= MAX_ROWS
    }

    /// An empty buffer of the given kind for the column `name`, with room for
    /// `capacity` rows, or for `MAX_CAPACITY` if that is less.
    pub fn new(name: &str, kind: ColumnKind, capacity: usize) -> (r: Buffer)
        ensures
            r.wf(),
            r.kind() == kind,
            r@ == Seq::<Cell>::empty(),
    {
        let capacity = if capacity <= MAX_CAPACITY {
            capacity
        } else {
            MAX_CAPACITY
        };
        let storage = match kind {
            ColumnKind::Boolean => Storage::Boolean(boolean_builder_new(name, capacity)),
            ColumnKind::Int32 => Storage::Int32(int32_builder_new(name, capacity)),
            ColumnKind::Int64 => Storage::Int64(int64_builder_new(name, capacity)),
            ColumnKind::UInt32 => Storage::UInt32(uint32_builder_new(name, capacity)),
            ColumnKind::UInt64 => Storage::UInt64(uint64_builder_new(name, capacity)),
            ColumnKind::Float32 => Storage::Float32(Vec::with_capacity(capacity)),
            ColumnKind::Float64 => Storage::Float64(Vec::with_capacity(capacity)),
            ColumnKind::Utf8 => Storage::Utf8(utf8_builder_new(name, capacity, capacity * 25)),
            ColumnKind::Datetime(unit) => Storage::Datetime(
                int64_builder_new(name, capacity),
                unit,
            ),
            ColumnKind::Date => Storage::Date(int32_builder_new(name, capacity)),
        };
        Buffer { storage, rows: 0 }
    }

    /// The kind of the column.
    pub fn column_kind(&self) -> (r: ColumnKind)
        ensures
            r == self.kind(),
    {
        match &self.storage {
            Storage::Boolean(_) => ColumnKind::Boolean,
            Storage::Int32(_) => ColumnKind::Int32,
            Storage::Int64(_) => ColumnKind::Int64,
            Storage::UInt32(_) => ColumnKind::UInt32,
            Storage::UInt64(_) => ColumnKind::UInt64,
            Storage::Float32(_) => ColumnKind::Float32,
            Storage::Float64(_) => ColumnKind::Float64,
            Storage::Utf8(_) => ColumnKind::Utf8,
            Storage::Datetime(_, unit) => ColumnKind::Datetime(*unit),
            Storage::Date(_) => ColumnKind::Date,
        }
    }

    /// The number of cells.
    pub fn len(&self) -> (r: usize)
        requires
            self.wf(),
        ensures
            r == self@.len(),
            r <= MAX_ROWS,
    {
        self.rows
    }

    /// Appends a null.
    pub fn add_null(&mut self)
        requires
            old(self).wf(),
            old(self)@.len() < MAX_ROWS,
        ensures
            final(self).wf(),
            final(self).kind() == old(self).kind(),
            final(self)@ == old(self)@.push(None),
    {
        match &mut self.storage {
            Storage::Boolean(b) => boolean_builder_append(b, None),
            Storage::Int32(b) => int32_builder_append(b, None),
            Storage::Int64(b) => int64_builder_append(b, None),
            Storage::UInt32(b) => uint32_builder_append(b, None),
            Storage::UInt64(b) => uint64_builder_append(b, None),
            Storage::Float32(numbers) => numbers.push(None),
            Storage::Float64(numbers) => numbers.push(None),
            Storage::Utf8(b) => utf8_builder_append(b, None),
            Storage::Datetime(b, _) => int64_builder_append(b, None),
            Storage::Date(b) => int32_builder_append(b, None),
        }
        self.rows = self.rows + 1;
    }

    /// Appends the cell that the column stores for `value`: the value coerced
    /// to the column's kind, or null where it cannot be.
    pub fn add(&mut self, value: &RawValue)
        requires
            old(self).wf(),
            old(self)@.len() < MAX_ROWS,
        ensures
            final(self).wf(),
            final(self).kind() == old(self).kind(),
            final(self)@ == old(self)@.push(coerced(old(self).kind(), *value)),
    {
        match &mut self.storage {
            Storage::Boolean(b) => {
                match value {
                    RawValue::Boolean(v) => boolean_builder_append(b, Some(*v)),
                    _ => boolean_builder_append(b, None),
                }
            },
            Storage::Int32(b) => int32_builder_append(b, deserialize_i32(value)),
            Storage::Int64(b) => int64_builder_append(b, deserialize_i64(value)),
            Storage::UInt32(b) => uint32_builder_append(b, deserialize_u32(value)),
            Storage::UInt64(b) => uint64_builder_append(b, deserialize_u64(value)),
            Storage::Float32(numbers) => numbers.push(deserialize_float(value)),
            Storage::Float64(numbers) => numbers.push(deserialize_float(value)),
            Storage::Utf8(b) => {
                match deserialize_text(value) {
                    Some(text) => utf8_builder_append(b, Some(text.as_str())),
                    None => utf8_builder_append(b, None),
                }
            },
            Storage::Datetime(b, unit) => int64_builder_append(
                b,
                deserialize_datetime(*unit, value),
            ),
            Storage::Date(b) => int32_builder_append(b, deserialize_date(value)),
        }
        self.rows = self.rows + 1;
    }

    /// Closes the buffer into a column with the same cells, of the type of
    /// the buffer's kind: the integers of a column of date-times are counts
    /// of the column's unit, those of a column of dates are days.
    pub fn finalize(self) -> (r: Column)
        requires
            self.wf(),
        ensures
            r.kind() == self.kind(),
            r.cells() == self@,
    {
        let kind = self.column_kind();
        let data = match self.storage {
            Storage::Boolean(b) => ColumnData::Closed(boolean_builder_finish(b)),
            Storage::Int32(b) => ColumnData::Closed(int32_builder_finish(b)),
            Storage::Int64(b) => ColumnData::Closed(int64_builder_finish(b)),
            Storage::UInt32(b) => ColumnData::Closed(uint32_builder_finish(b)),
            Storage::UInt64(b) => ColumnData::Closed(uint64_builder_finish(b)),
            Storage::Float32(numbers) => ColumnData::Numbers(numbers),
            Storage::Float64(numbers) => ColumnData::Numbers(numbers),
            Storage::Utf8(b) => ColumnData::Closed(utf8_builder_finish(b)),
            Storage::Datetime(b, unit) => ColumnData::Closed(
                int64_builder_finish_datetime(b, unit),
            ),
            Storage::Date(b) => ColumnData::Closed(int32_builder_finish_date(b)),
        };
        Column { kind, data }
    }
}

} // verus!
