//! Dates and times: what a raw value is in a column of date-times and in a
//! column of dates.
use vstd::prelude::*;
use polars_time::prelude::utf8::infer::{infer_pattern_single, DatetimeInfer};
use polars_time::prelude::utf8::Pattern;
use vstd::arithmetic::div_mod::{
    lemma_fundamental_div_mod, lemma_fundamental_div_mod_converse, lemma_mod_bound,
};
use crate::field_type::TimeUnit;
use crate::numeric::within;
use crate::value::RawValue;

verus! {

/// The order of day, month and year that a text is written in, and whether
/// a time of day follows.
#[derive(Clone, Copy, Debug, PartialEq, Eq, Structural)]
pub enum DatePattern {
    DateDMY,
    DateYMD,
    DatetimeYMD,
    DatetimeDMY,
}

impl DatePattern {
    /// Whether a text of the pattern holds a time of day beside the date.
    pub open spec fn has_time(self) -> bool {
        self is DatetimeYMD || self is DatetimeDMY
    }
}

/// The pattern that the text is recognised as, if any: what
/// `infer_pattern_single` returns for it.
pub uninterp spec fn inferred_pattern(text: Seq<char>) -> Option<DatePattern>;

/// The text read as a date and time of the given pattern, in microseconds
/// since the epoch: what `DatetimeInfer::parse` returns for it on the parser
/// that `DatetimeInfer::<i64>::try_from` makes of the pattern, and `None`
/// where there is no such parser.
pub uninterp spec fn datetime_by_pattern(pattern: DatePattern, text: Seq<char>) -> Option<i64>;

/// The text read as a date of the given pattern, in days since the epoch:
/// what `DatetimeInfer::parse` returns for it on the parser that
/// `DatetimeInfer::<i32>::try_from` makes of the pattern, and `None` where
/// there is no such parser.
pub uninterp spec fn date_by_pattern(pattern: DatePattern, text: Seq<char>) -> Option<i32>;

/// `infer_pattern_single`: the pattern that the text is recognised as.
#[verifier::external_body]
fn infer_pattern(text: &str) -> (r: Option<DatePattern>)
    ensures
        r == inferred_pattern(text@),
{
    match infer_pattern_single(text) {
        Some(Pattern::DateDMY) => Some(DatePattern::DateDMY),
        Some(Pattern::DateYMD) => Some(DatePattern::DateYMD),
        Some(Pattern::DatetimeYMD) => Some(DatePattern::DatetimeYMD),
        Some(Pattern::DatetimeDMY) => Some(DatePattern::DatetimeDMY),
        None => None,
    }
}

/// `DatetimeInfer::<i64>::try_from` and, on the parser it gives,
/// `DatetimeInfer::parse`: the text read as a date and time of that pattern.
/// Only the two patterns with a time of day have such a parser.
#[verifier::external_body]
fn parse_datetime(pattern: DatePattern, text: &str) -> (r: Option<i64>)
    ensures
        r == datetime_by_pattern(pattern, text@),
        !pattern.has_time() ==> r is None,
{
    let outside = match pattern {
        DatePattern::DateDMY => Pattern::DateDMY,
        DatePattern::DateYMD => Pattern::DateYMD,
        DatePattern::DatetimeYMD => Pattern::DatetimeYMD,
        DatePattern::DatetimeDMY => Pattern::DatetimeDMY,
    };
    match DatetimeInfer::<i64>::try_from(outside) {
        Ok(mut infer) => infer.parse(text),
        Err(_) => None,
    }
}

/// `DatetimeInfer::<i32>::try_from` and, on the parser it gives,
/// `DatetimeInfer::parse`: the text read as a date of that pattern. Only the
/// two patterns without a time of day have such a parser.
#[verifier::external_body]
fn parse_date(pattern: DatePattern, text: &str) -> (r: Option<i32>)
    ensures
        r == date_by_pattern(pattern, text@),
        pattern.has_time() ==> r is None,
{
    let outside = match pattern {
        DatePattern::DateDMY => Pattern::DateDMY,
        DatePattern::DateYMD => Pattern::DateYMD,
        DatePattern::DatetimeYMD => Pattern::DatetimeYMD,
        DatePattern::DatetimeDMY => Pattern::DatetimeDMY,
    };
    match DatetimeInfer::<i32>::try_from(outside) {
        Ok(mut infer) => infer.parse(text),
        Err(_) => None,
    }
}

/// The microseconds since the epoch that a text is read as, given the
/// pattern that it was recognised as: nothing without a pattern, and nothing
/// under a pattern without a time of day.
pub open spec fn datetime_of_text(pattern: Option<DatePattern>, text: Seq<char>) -> Option<int> {
    match pattern {
        Some(p) => if p.has_time() {
            match datetime_by_pattern(p, text) {
                Some(v) => Some(v as int),
                None => None,
            }
        } else {
            None
        },
        None => None,
    }
}

/// The days since the epoch that a text is read as, given the pattern that
/// it was recognised as: nothing without a pattern, and nothing under a
/// pattern with a time of day.
pub open spec fn date_of_text(pattern: Option<DatePattern>, text: Seq<char>) -> Option<int> {
    match pattern {
        Some(p) => if p.has_time() {
            None
        } else {
            match date_by_pattern(p, text) {
                Some(v) => Some(v as int),
                None => None,
            }
        },
        None => None,
    }
}

/// The seconds in a day.
pub const SECONDS_PER_DAY: u32 = 86_400;

/// The milliseconds in a day.
pub const MILLIS_PER_DAY: u32 = 86_400_000;

/// An instant that is `count` units after the epoch, of which `from` make a
/// second, counted in units of which `to` make a second. A part of a unit is
/// dropped: the count is that of the last whole unit at or before the
/// instant.
pub open spec fn rescaled(count: int, from: int, to: int) -> int {
    (count * to) / from
}

/// The instant in the unit of a column of date-times, where its count fits
/// in 64 bits.
pub open spec fn in_unit(count: int, from: int, unit: TimeUnit) -> Option<int> {
    within(Some(rescaled(count, from, unit.per_second())), i64::MIN as int, i64::MAX as int)
}

/// The integer that a column of date-times of the given unit stores for a
/// raw value, the instant of the value counted in that unit: a timestamp
/// holds seconds, a date-time milliseconds, and a text is read, under the
/// pattern that it is recognised as, in microseconds. Null where the count
/// does not fit in 64 bits. Every other kind of value has none.
pub open spec fn datetime_value(unit: TimeUnit, value: RawValue) -> Option<int> {
    match value {
        RawValue::Timestamp(ts) => in_unit(ts.time as int, 1, unit),
        RawValue::DateTime(millis) => in_unit(millis as int, 1_000, unit),
        RawValue::String(text) => match datetime_of_text(inferred_pattern(text@), text@) {
            Some(micros) => in_unit(micros, 1_000_000, unit),
            None => None,
        },
        _ => None,
    }
}

/// The integer that a column of dates stores for a raw value, the day of the
/// value's instant counted from the epoch: a timestamp holds seconds, a
/// date-time milliseconds, and a text is read under the pattern that it is
/// recognised as. Null where the day does not fit in 32 bits. Every other
/// kind of value has none.
pub open spec fn date_value(value: RawValue) -> Option<int> {
    match value {
        RawValue::Timestamp(ts) => Some(ts.time as int / SECONDS_PER_DAY as int),
        RawValue::DateTime(millis) => within(
            Some(millis as int / MILLIS_PER_DAY as int),
            i32::MIN as int,
            i32::MAX as int,
        ),
        RawValue::String(text) => date_of_text(inferred_pattern(text@), text@),
        _ => None,
    }
}

/// `n` divided by `d`, rounded down.
pub fn div_floor(n: i64, d: u32) -> (q: i64)
    requires
        d > 0,
    ensures
        q == n as int / d as int,
{
    if n >= 0 {
        (n as u64 / d as u64) as i64
    } else {
        let m: u64 = (-(n as i128)) as u64;
        let c: u64 = (m + (d as u64 - 1)) / (d as u64);
        proof {
            let x = m as int + d as int - 1;
            let r = x % (d as int);
            lemma_fundamental_div_mod(x, d as int);
            lemma_mod_bound(x, d as int);
            assert(c <= m && n as int == (-(c as int)) * d as int + (d as int - 1 - r))
                by (nonlinear_arith)
                requires
                    x == d as int * (c as int) + r,
                    x == m as int + d as int - 1,
                    m as int == -(n as int),
                    0 <= r < d,
                    c >= 0,
            ;
            lemma_fundamental_div_mod_converse(n as int, d as int, -(c as int), d as int - 1 - r);
        }
        (-(c as i128)) as i64
    }
}

/// A count in 64 bits, if it fits.
fn narrow(count: i128) -> (r: Option<i64>)
    ensures
        r == if i64::MIN <= count <= i64::MAX {
            Some(count as i64)
        } else {
            None
        },
{
    if -0x8000_0000_0000_0000 <= count && count <= 0x7FFF_FFFF_FFFF_FFFF {
        Some(count as i64)
    } else {
        None
    }
}

/// The seconds of a timestamp in the unit of a column of date-times.
pub fn seconds_in_unit(seconds: u32, unit: TimeUnit) -> (r: Option<i64>)
    ensures
        match r {
            Some(n) => in_unit(seconds as int, 1, unit) == Some(n as int),
            None => in_unit(seconds as int, 1, unit) is None,
        },
{
    match unit {
        TimeUnit::Nanoseconds => narrow(seconds as i128 * 1_000_000_000),
        TimeUnit::Microseconds => narrow(seconds as i128 * 1_000_000),
        TimeUnit::Milliseconds => narrow(seconds as i128 * 1_000),
    }
}

/// The milliseconds of a date-time in the unit of a column of date-times.
pub fn millis_in_unit(millis: i64, unit: TimeUnit) -> (r: Option<i64>)
    ensures
        match r {
            Some(n) => in_unit(millis as int, 1_000, unit) == Some(n as int),
            None => in_unit(millis as int, 1_000, unit) is None,
        },
{
    match unit {
        TimeUnit::Nanoseconds => narrow(millis as i128 * 1_000_000),
        TimeUnit::Microseconds => narrow(millis as i128 * 1_000),
        TimeUnit::Milliseconds => Some(millis),
    }
}

/// The microseconds of a parsed text in the unit of a column of date-times.
pub fn micros_in_unit(micros: i64, unit: TimeUnit) -> (r: Option<i64>)
    ensures
        match r {
            Some(n) => in_unit(micros as int, 1_000_000, unit) == Some(n as int),
            None => in_unit(micros as int, 1_000_000, unit) is None,
        },
{
    match unit {
        TimeUnit::Nanoseconds => narrow(micros as i128 * 1_000),
        TimeUnit::Microseconds => Some(micros),
        TimeUnit::Milliseconds => Some(div_floor(micros, 1_000)),
    }
}

/// Reads a text as a date and time, in microseconds since the epoch, under
/// the pattern that it was recognised as. Without a pattern the text is not
/// read.
pub fn datetime_under(pattern: Option<DatePattern>, text: &str) -> (r: Option<i64>)
    ensures
        match r {
            Some(n) => datetime_of_text(pattern, text@) == Some(n as int),
            None => datetime_of_text(pattern, text@) is None,
        },
{
    match pattern {
        None => None,
        Some(p) => parse_datetime(p, text),
    }
}

/// Reads a text as a date, in days since the epoch, under the pattern that
/// it was recognised as. Without a pattern the text is not read.
pub fn date_under(pattern: Option<DatePattern>, text: &str) -> (r: Option<i32>)
    ensures
        match r {
            Some(n) => date_of_text(pattern, text@) == Some(n as int),
            None => date_of_text(pattern, text@) is None,
        },
{
    match pattern {
        None => None,
        Some(p) => parse_date(p, text),
    }
}

/// Reads a text as a date and time, in microseconds since the epoch: the
/// pattern is inferred from the text, then the text is read under it.
pub fn datetime_from_text(text: &str) -> (r: Option<i64>)
    ensures
        match r {
            Some(n) => datetime_of_text(inferred_pattern(text@), text@) == Some(n as int),
            None => datetime_of_text(inferred_pattern(text@), text@) is None,
        },
{
    datetime_under(infer_pattern(text), text)
}

/// Reads a text as a date, in days since the epoch: the pattern is inferred
/// from the text, then the text is read under it.
pub fn date_from_text(text: &str) -> (r: Option<i32>)
    ensures
        match r {
            Some(n) => date_of_text(inferred_pattern(text@), text@) == Some(n as int),
            None => date_of_text(inferred_pattern(text@), text@) is None,
        },
{
    date_under(infer_pattern(text), text)
}

/// The value for a column of date-times of the given unit.
pub fn deserialize_datetime(unit: TimeUnit, value: &RawValue) -> (r: Option<i64>)
    ensures
        match r {
            Some(n) => datetime_value(unit, *value) == Some(n as int),
            None => datetime_value(unit, *value) is None,
        },
{
    match value {
        RawValue::Timestamp(ts) => seconds_in_unit(ts.time, unit),
        RawValue::DateTime(millis) => millis_in_unit(*millis, unit),
        RawValue::String(text) => match datetime_from_text(text.as_str()) {
            Some(micros) => micros_in_unit(micros, unit),
            None => None,
        },
        _ => None,
    }
}

/// The value for a column of dates.
pub fn deserialize_date(value: &RawValue) -> (r: Option<i32>)
    ensures
        match r {
            Some(n) => date_value(*value) == Some(n as int),
            None => date_value(*value) is None,
        },
{
    match value {
        RawValue::Timestamp(ts) => Some((ts.time / SECONDS_PER_DAY) as i32),
        RawValue::DateTime(millis) => {
            let day = div_floor(*millis, MILLIS_PER_DAY);
            if -0x8000_0000 <= day && day <= 0x7FFF_FFFF {
                Some(day as i32)
            } else {
                None
            }
        },
        RawValue::String(text) => date_from_text(text.as_str()),
        _ => None,
    }
}

} // verus!
