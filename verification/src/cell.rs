//! What one position of a column holds.
use vstd::prelude::*;
use crate::field_type::TimeUnit;

verus! {

/// The most rows a column can have: positions are counted in 32 bits.
pub const MAX_ROWS: usize = 0xFFFF_FFFF;

/// The most rows that a column reserves room for in advance. A larger
/// capacity hint reserves this much.
pub const MAX_CAPACITY: usize = 0x1_0000;

/// The number behind one position of a floating point column. The column
/// keeps the number as it was admitted; it becomes a floating point number
/// when the closed column is rendered.
#[derive(Clone, Copy, Debug, PartialEq, Eq, Structural)]
pub enum Number {
    /// An integer, to be rounded to the nearest floating point number.
    Integer(i64),
    /// A 64-bit floating point number by its IEEE 754 bit pattern.
    Double(u64),
}

/// The value at one position of a column that is not null.
pub enum CellValue {
    Boolean(bool),
    /// An integer of any width, and the stored integer of a date or a
    /// date-time.
    Integer(int),
    Float(Number),
    Text(Seq<char>),
}

/// One position of a column: a value, or `None` for null.
pub type Cell = Option<CellValue>;

/// The kinds of column buffer.
#[derive(Clone, Copy, Debug, PartialEq, Eq, Structural)]
pub enum ColumnKind {
    Boolean,
    Int32,
    Int64,
    UInt32,
    UInt64,
    Float32,
    Float64,
    Utf8,
    /// Date-times, counted from the epoch in the given unit.
    Datetime(TimeUnit),
    /// Dates, counted from the epoch in days.
    Date,
}

impl ColumnKind {
    /// Whether the column holds floating point numbers.
    pub open spec fn is_floating(self) -> bool {
        self == ColumnKind::Float32 || self == ColumnKind::Float64
    }
}

/// The cell that holds the integer `v`, null for `None`.
pub open spec fn integer_cell(v: Option<int>) -> Cell {
    match v {
        Some(n) => Some(CellValue::Integer(n)),
        None => None,
    }
}

/// A column of numbers as a column of cells.
pub open spec fn float_cells(items: Seq<Option<Number>>) -> Seq<Cell> {
    Seq::new(
        items.len(),
        |i: int|
            match items[i] {
                Some(v) => Some(CellValue::Float(v)),
                None => None,
            },
    )
}

} // verus!
