//! Numbers: what a raw value is in a column of integers and in a column of
//! floating point numbers.
use vstd::prelude::*;
use crate::cell::Number;
use crate::value::RawValue;

verus! {

/// The integer that a raw value stands for in a column of integers: a
/// floating point number rounded toward zero, an integer itself, a boolean
/// as 0 or 1. Every other kind of value has none.
pub open spec fn integer_value(value: RawValue) -> Option<int> {
    match value {
        RawValue::Double(d) => match d.integral {
            Some(n) => Some(n as int),
            None => None,
        },
        RawValue::Int32(n) => Some(n as int),
        RawValue::Int64(n) => Some(n as int),
        RawValue::Boolean(b) => Some(if b { 1int } else { 0int }),
        _ => None,
    }
}

/// `v` where it lies between `low` and `high`, both included.
pub open spec fn within(v: Option<int>, low: int, high: int) -> Option<int> {
    match v {
        Some(n) => if low <= n <= high { Some(n) } else { None },
        None => None,
    }
}

/// The integer that a column of 32-bit signed integers stores for a raw
/// value.
pub open spec fn int32_value(value: RawValue) -> Option<int> {
    within(integer_value(value), i32::MIN as int, i32::MAX as int)
}

/// The integer that a column of 64-bit signed integers stores for a raw
/// value.
pub open spec fn int64_value(value: RawValue) -> Option<int> {
    within(integer_value(value), i64::MIN as int, i64::MAX as int)
}

/// The integer that a column of 32-bit unsigned integers stores for a raw
/// value.
pub open spec fn uint32_value(value: RawValue) -> Option<int> {
    within(integer_value(value), 0, u32::MAX as int)
}

/// The integer that a column of 64-bit unsigned integers stores for a raw
/// value.
pub open spec fn uint64_value(value: RawValue) -> Option<int> {
    within(integer_value(value), 0, u64::MAX as int)
}

/// The number that a raw value stands for in a column of floating point
/// numbers: a floating point number itself, an integer, a boolean as 0 or 1.
/// Every other kind of value has none.
pub open spec fn number_value(value: RawValue) -> Option<Number> {
    match value {
        RawValue::Double(d) => Some(Number::Double(d.bits)),
        RawValue::Int32(n) => Some(Number::Integer(n as i64)),
        RawValue::Int64(n) => Some(Number::Integer(n)),
        RawValue::Boolean(b) => Some(Number::Integer(if b { 1i64 } else { 0i64 })),
        _ => None,
    }
}

/// The integer that a raw value stands for in a column of integers.
pub fn deserialize_number(value: &RawValue) -> (r: Option<i128>)
    ensures
        match r {
            Some(n) => integer_value(*value) == Some(n as int),
            None => integer_value(*value) is None,
        },
{
    match value {
        RawValue::Double(d) => d.integral,
        RawValue::Int32(n) => Some(*n as i128),
        RawValue::Int64(n) => Some(*n as i128),
        RawValue::Boolean(b) => Some(if *b { 1 } else { 0 }),
        _ => None,
    }
}

/// The number that a raw value stands for in a column of floating point
/// numbers.
pub fn deserialize_float(value: &RawValue) -> (r: Option<Number>)
    ensures
        r == number_value(*value),
{
    match value {
        RawValue::Double(d) => Some(Number::Double(d.bits)),
        RawValue::Int32(n) => Some(Number::Integer(*n as i64)),
        RawValue::Int64(n) => Some(Number::Integer(*n)),
        RawValue::Boolean(b) => Some(Number::Integer(if *b { 1 } else { 0 })),
        _ => None,
    }
}

/// The value for a column of 32-bit signed integers: the integer that the
/// raw value stands for, if it has one in the column's range.
pub fn deserialize_i32(value: &RawValue) -> (r: Option<i32>)
    ensures
        match r {
            Some(n) => int32_value(*value) == Some(n as int),
            None => int32_value(*value) is None,
        },
{
    match deserialize_number(value) {
        Some(n) => if -0x8000_0000 <= n && n <= 0x7FFF_FFFF { Some(n as i32) } else { None },
        None => None,
    }
}

/// The value for a column of 64-bit signed integers: the integer that the
/// raw value stands for, if it has one in the column's range.
pub fn deserialize_i64(value: &RawValue) -> (r: Option<i64>)
    ensures
        match r {
            Some(n) => int64_value(*value) == Some(n as int),
            None => int64_value(*value) is None,
        },
{
    match deserialize_number(value) {
        Some(n) => if -0x8000_0000_0000_0000 <= n && n <= 0x7FFF_FFFF_FFFF_FFFF {
            Some(n as i64)
        } else {
            None
        },
        None => None,
    }
}

/// The value for a column of 32-bit unsigned integers: the integer that the
/// raw value stands for, if it has one in the column's range.
pub fn deserialize_u32(value: &RawValue) -> (r: Option<u32>)
    ensures
        match r {
            Some(n) => uint32_value(*value) == Some(n as int),
            None => uint32_value(*value) is None,
        },
{
    match deserialize_number(value) {
        Some(n) => if 0 <= n && n <= 0xFFFF_FFFF { Some(n as u32) } else { None },
        None => None,
    }
}

/// The value for a column of 64-bit unsigned integers: the integer that the
/// raw value stands for, if it has one in the column's range.
pub fn deserialize_u64(value: &RawValue) -> (r: Option<u64>)
    ensures
        match r {
            Some(n) => uint64_value(*value) == Some(n as int),
            None => uint64_value(*value) is None,
        },
{
    match deserialize_number(value) {
        Some(n) => if 0 <= n && n <= 0xFFFF_FFFF_FFFF_FFFF { Some(n as u64) } else { None },
        None => None,
    }
}

} // verus!
