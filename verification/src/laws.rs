//! What holds of every pass, stated over the functions that the contracts of
//! the library use.
use vstd::prelude::*;
use crate::cell::{CellValue, ColumnKind, Number};
use crate::buffer::{column_type_of, kind_of};
use crate::coerce::coerced;
use crate::field_type::{FieldTypeView, TimeUnit};
use crate::reader::Materializer;
use crate::registry::{aligned, column_cells};
use crate::schema::{
    inferred_fields, lemma_observed_documents_type, lemma_observed_documents_unique,
    merged_documents, names_unique, type_of,
};
use crate::temporal::{
    date_of_text, date_value, datetime_of_text, datetime_value, in_unit, DatePattern,
    MILLIS_PER_DAY, SECONDS_PER_DAY,
};
use crate::value::{lemma_first_entry, Document, RawValue, Timestamp};

verus! {

/// In every state of a pass, each open buffer holds exactly one cell for
/// every document taken so far, and no more documents were taken than the
/// row limit allows.
pub proof fn law_buffers_are_aligned(pass: Materializer)
    requires
        pass.wf(),
    ensures
        aligned(pass.buffers(), pass.rows()),
        pass.rows() <= pass.limit(),
{
    pass.lemma_wf();
}

/// A column has exactly one cell for each document taken, whatever the
/// documents hold.
pub proof fn law_one_cell_per_document(
    kind: ColumnKind,
    name: Seq<char>,
    documents: Seq<Document>,
)
    ensures
        column_cells(kind, name, documents).len() == documents.len(),
{
}

/// A document has a field of a name exactly if one of its entries has the
/// name, and the field is then the first such entry.
pub proof fn law_field_is_first_entry(document: Document, name: Seq<char>)
    ensures
        match document.position(name) {
            Some(i) => {
                &&& 0 <= i < document.entries@.len()
                &&& document.entries@[i].0@ == name
                &&& document.lookup(name) == Some(document.entries@[i].1)
                &&& forall|j: int| 0 <= j < i ==> document.entries@[j].0@ != name
            },
            None => {
                &&& !document.has(name)
                &&& forall|j: int|
                    0 <= j < document.entries@.len() ==> document.entries@[j].0@ != name
            },
        },
{
    lemma_first_entry(document.entries@, name, 0);
}

/// Where a document has no field of a column's name, the column's cell at
/// the document's row is null.
pub proof fn law_absent_field_is_null(
    kind: ColumnKind,
    name: Seq<char>,
    documents: Seq<Document>,
    row: int,
)
    requires
        0 <= row < documents.len(),
        !documents[row].has(name),
    ensures
        column_cells(kind, name, documents)[row] is None,
{
}

/// Where a document has a field of a column's name, the column's cell at the
/// document's row is that field's value coerced to the column's kind.
pub proof fn law_present_field_is_coerced(
    kind: ColumnKind,
    name: Seq<char>,
    documents: Seq<Document>,
    row: int,
)
    requires
        0 <= row < documents.len(),
        documents[row].has(name),
    ensures
        column_cells(kind, name, documents)[row] == coerced(
            kind,
            documents[row].lookup(name).unwrap(),
        ),
{
}

/// A 64-bit integer outside the range of 32 bits is null in a column of
/// 32-bit integers, signed or unsigned.
pub proof fn law_wide_integer_is_null(v: i64)
    ensures
        v < i32::MIN || v > i32::MAX ==> coerced(ColumnKind::Int32, RawValue::Int64(v)) is None,
        v < 0 || v > u32::MAX ==> coerced(ColumnKind::UInt32, RawValue::Int64(v)) is None,
{
}

/// An integer within the range of a column of integers is stored as it is.
pub proof fn law_fitting_integer_is_kept(v: i64)
    ensures
        i32::MIN <= v <= i32::MAX ==> coerced(ColumnKind::Int32, RawValue::Int64(v)) == Some(
            CellValue::Integer(v as int),
        ),
        coerced(ColumnKind::Int64, RawValue::Int64(v)) == Some(CellValue::Integer(v as int)),
        0 <= v <= u32::MAX ==> coerced(ColumnKind::UInt32, RawValue::Int64(v)) == Some(
            CellValue::Integer(v as int),
        ),
        0 <= v ==> coerced(ColumnKind::UInt64, RawValue::Int64(v)) == Some(
            CellValue::Integer(v as int),
        ),
{
}

/// The number that stands for a boolean: one for true, zero for false.
pub open spec fn boolean_number(b: bool) -> int {
    if b {
        1
    } else {
        0
    }
}

/// A boolean is 0 or 1 in every numeric column.
pub proof fn law_boolean_is_zero_or_one(b: bool)
    ensures
        boolean_number(b) == 0 || boolean_number(b) == 1,
        coerced(ColumnKind::Int32, RawValue::Boolean(b)) == Some(
            CellValue::Integer(boolean_number(b)),
        ),
        coerced(ColumnKind::Int64, RawValue::Boolean(b)) == Some(
            CellValue::Integer(boolean_number(b)),
        ),
        coerced(ColumnKind::UInt32, RawValue::Boolean(b)) == Some(
            CellValue::Integer(boolean_number(b)),
        ),
        coerced(ColumnKind::UInt64, RawValue::Boolean(b)) == Some(
            CellValue::Integer(boolean_number(b)),
        ),
        coerced(ColumnKind::Float32, RawValue::Boolean(b)) == Some(
            CellValue::Float(Number::Integer(boolean_number(b) as i64)),
        ),
        coerced(ColumnKind::Float64, RawValue::Boolean(b)) == Some(
            CellValue::Float(Number::Integer(boolean_number(b) as i64)),
        ),
{
}

/// A buffer for a field closes into a column of the field's own type, for
/// every type that has a buffer.
pub proof fn law_column_has_the_type_of_its_field(field_type: FieldTypeView)
    requires
        field_type.has_buffer(),
    ensures
        kind_of(field_type) matches Some(kind) && column_type_of(kind) == field_type,
{
}

/// A date-time comes out of a column of date-times as the instant that went
/// in, whatever the column's unit: the stored count times a thousand is the
/// milliseconds times the units in a second. The cell is null exactly where
/// that count does not fit in 64 bits, and never in a column of
/// milliseconds.
pub proof fn law_datetime_keeps_the_instant(unit: TimeUnit, millis: i64)
    ensures
        match datetime_value(unit, RawValue::DateTime(millis)) {
            Some(count) => count * 1_000 == millis * unit.per_second(),
            None => millis * (unit.per_second() / 1_000) < i64::MIN || millis * (unit.per_second()
                / 1_000) > i64::MAX,
        },
        coerced(ColumnKind::Datetime(TimeUnit::Milliseconds), RawValue::DateTime(millis)) == Some(
            CellValue::Integer(millis as int),
        ),
{
}

/// A timestamp comes out of a column of date-times as its second, counted
/// in the column's unit.
pub proof fn law_timestamp_keeps_the_instant(unit: TimeUnit, timestamp: Timestamp)
    ensures
        coerced(ColumnKind::Datetime(unit), RawValue::Timestamp(timestamp)) == Some(
            CellValue::Integer(timestamp.time * unit.per_second()),
        ),
{
}

/// A text that is read as a number of microseconds is stored as the last
/// whole unit of the column at or before that instant.
pub proof fn law_text_keeps_the_instant(unit: TimeUnit, micros: i64)
    ensures
        match in_unit(micros as int, 1_000_000, unit) {
            Some(count) => count * 1_000_000 <= micros * unit.per_second() < (count + 1)
                * 1_000_000,
            None => unit is Nanoseconds,
        },
{
}

/// The day that a column of dates stores for a date-time is the day that
/// holds its instant, and the day of a timestamp likewise.
pub proof fn law_date_is_the_day_of_the_instant(millis: i64, timestamp: Timestamp)
    ensures
        match date_value(RawValue::DateTime(millis)) {
            Some(day) => day * MILLIS_PER_DAY <= millis < (day + 1) * MILLIS_PER_DAY,
            None => millis < i32::MIN * MILLIS_PER_DAY || millis >= (i32::MAX + 1)
                * MILLIS_PER_DAY,
        },
        match date_value(RawValue::Timestamp(timestamp)) {
            Some(day) => day * SECONDS_PER_DAY <= timestamp.time < (day + 1) * SECONDS_PER_DAY,
            None => false,
        },
{
}

/// A text that is recognised as a date without a time of day is not read in
/// a column of date-times, nor one with a time of day in a column of dates.
pub proof fn law_dates_and_date_times_do_not_mix(pattern: DatePattern, text: Seq<char>)
    ensures
        !pattern.has_time() ==> datetime_of_text(Some(pattern), text) is None,
        pattern.has_time() ==> date_of_text(Some(pattern), text) is None,
{
}

/// Whether a column of text has a form for the kind of the value: text,
/// code, an object identifier, a regular expression.
pub open spec fn has_text_form(value: RawValue) -> bool {
    value is String || value is JavaScriptCode || value is ObjectId || value is RegularExpression
}

/// A value of a kind without a text form is null in a column of text, and
/// no other value is.
pub proof fn law_text_or_null(value: RawValue)
    ensures
        coerced(ColumnKind::Utf8, value) is None <==> !has_text_form(value),
{
}

/// A value that is not a boolean is null in a column of booleans.
pub proof fn law_boolean_or_null(value: RawValue)
    ensures
        coerced(ColumnKind::Boolean, value) is None <==> !(value is Boolean),
{
}

/// No name occurs twice in an inferred schema, whatever the sample holds.
pub proof fn law_inferred_names_are_unique(sample: Seq<Document>, sample_size: nat)
    ensures
        names_unique(inferred_fields(sample, sample_size)),
{
    let upto = if sample_size <= sample.len() {
        sample_size as int
    } else {
        sample.len() as int
    };
    lemma_observed_documents_unique(Seq::empty(), sample, upto);
}

/// The type that an inferred schema gives to a name is the merge of the
/// types of all entries of that name in the documents read, in their order;
/// a name that no entry has is not a field.
pub proof fn law_inferred_type_is_the_merge(
    sample: Seq<Document>,
    sample_size: nat,
    name: Seq<char>,
)
    ensures
        type_of(inferred_fields(sample, sample_size), name) == merged_documents(
            None,
            sample,
            if sample_size <= sample.len() {
                sample_size as int
            } else {
                sample.len() as int
            },
            name,
        ),
{
    let upto = if sample_size <= sample.len() {
        sample_size as int
    } else {
        sample.len() as int
    };
    lemma_observed_documents_type(Seq::empty(), sample, upto, name);
}

/// Merging is the same in either order.
pub proof fn law_merge_commutes(a: FieldTypeView, b: FieldTypeView)
    ensures
        a.merge(b) == b.merge(a),
{
}

/// Merging three types gives the same however they are grouped, so the type
/// of a field does not depend on the order in which its values are seen.
pub proof fn law_merge_associates(a: FieldTypeView, b: FieldTypeView, c: FieldTypeView)
    ensures
        a.merge(b).merge(c) == a.merge(b.merge(c)),
{
}

/// Merging a type with itself gives the type of its column.
pub proof fn law_merge_idempotent(a: FieldTypeView)
    ensures
        a.merge(a) == a.column_type(),
{
}

/// A type merged with an irreconcilable one is text: a numeric type with a
/// type that is neither numeric nor `Null`, and text with every type.
pub proof fn law_merge_falls_back_to_text(a: FieldTypeView, b: FieldTypeView)
    ensures
        a.is_numeric() && !b.is_numeric() && !(b is Null) ==> a.merge(b) == FieldTypeView::Utf8,
        a.merge(FieldTypeView::Utf8) == FieldTypeView::Utf8,
{
}

} // verus!
