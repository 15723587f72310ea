//! Coercion: the cell that a column of a given kind stores for a raw value.
//! A value that the column cannot hold is no error; its cell is null.
use vstd::prelude::*;
use crate::cell::{integer_cell, Cell, CellValue, ColumnKind};
use crate::numeric::{int32_value, int64_value, number_value, uint32_value, uint64_value};
use crate::temporal::{date_value, datetime_value};
use crate::text::text_value;
use crate::value::RawValue;

verus! {

/// The cell that a column of the given kind stores for a raw value. Null
/// where the value has no form that the column can hold.
pub open spec fn coerced(kind: ColumnKind, value: RawValue) -> Cell {
    match kind {
        ColumnKind::Boolean => match value {
            RawValue::Boolean(b) => Some(CellValue::Boolean(b)),
            _ => None,
        },
        ColumnKind::Int32 => integer_cell(int32_value(value)),
        ColumnKind::Int64 => integer_cell(int64_value(value)),
        ColumnKind::UInt32 => integer_cell(uint32_value(value)),
        ColumnKind::UInt64 => integer_cell(uint64_value(value)),
        ColumnKind::Float32 | ColumnKind::Float64 => match number_value(value) {
            Some(n) => Some(CellValue::Float(n)),
            None => None,
        },
        ColumnKind::Utf8 => match text_value(value) {
            Some(text) => Some(CellValue::Text(text)),
            None => None,
        },
        ColumnKind::Datetime(unit) => integer_cell(datetime_value(unit, value)),
        ColumnKind::Date => integer_cell(date_value(value)),
    }
}

} // verus!
