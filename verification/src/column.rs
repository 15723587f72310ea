//! The growable columns that hold the cells, one type of builder for each
//! kind of storage, and the closed column that a builder ends as.
//!
//! Nothing in this file is proved. Each function states what one method of
//! a column builder does to the cells that the builder holds, as the
//! builder's source shows it.
use vstd::prelude::*;
use polars_core::prelude::{
    BooleanChunkedBuilder, ChunkedBuilder, DataType, Int32Type, Int64Type, IntoSeries,
    PrimitiveChunkedBuilder, Series, UInt32Type, UInt64Type, Utf8ChunkedBuilder,
};
use crate::cell::{Cell, CellValue, MAX_CAPACITY, MAX_ROWS};
use crate::field_type::{FieldTypeView, TimeUnit};

verus! {

/// The builder of a column of booleans.
#[verifier::external_type_specification]
#[verifier::external_body]
pub struct ExBooleanChunkedBuilder(BooleanChunkedBuilder);

/// The builder of a column of text.
#[verifier::external_type_specification]
#[verifier::external_body]
pub struct ExUtf8ChunkedBuilder(Utf8ChunkedBuilder);

/// A closed column.
#[verifier::external_type_specification]
#[verifier::external_body]
pub struct ExSeries(Series);

/// The builder of a column of 32-bit signed integers: a
/// `PrimitiveChunkedBuilder<Int32Type>`.
#[verifier::external_body]
pub struct Int32Builder {
    inner: PrimitiveChunkedBuilder<Int32Type>,
}

/// The builder of a column of 64-bit signed integers: a
/// `PrimitiveChunkedBuilder<Int64Type>`.
#[verifier::external_body]
pub struct Int64Builder {
    inner: PrimitiveChunkedBuilder<Int64Type>,
}

/// The builder of a column of 32-bit unsigned integers: a
/// `PrimitiveChunkedBuilder<UInt32Type>`.
#[verifier::external_body]
pub struct UInt32Builder {
    inner: PrimitiveChunkedBuilder<UInt32Type>,
}

/// The builder of a column of 64-bit unsigned integers: a
/// `PrimitiveChunkedBuilder<UInt64Type>`.
#[verifier::external_body]
pub struct UInt64Builder {
    inner: PrimitiveChunkedBuilder<UInt64Type>,
}

/// The cells that a boolean builder holds, in the order they were appended.
pub uninterp spec fn boolean_builder_cells(builder: BooleanChunkedBuilder) -> Seq<Cell>;

/// The cells that a text builder holds, in the order they were appended.
pub uninterp spec fn utf8_builder_cells(builder: Utf8ChunkedBuilder) -> Seq<Cell>;

/// The cells that a builder of 32-bit signed integers holds, in the order
/// they were appended.
pub uninterp spec fn int32_builder_cells(builder: Int32Builder) -> Seq<Cell>;

/// The cells that a builder of 64-bit signed integers holds, in the order
/// they were appended.
pub uninterp spec fn int64_builder_cells(builder: Int64Builder) -> Seq<Cell>;

/// The cells that a builder of 32-bit unsigned integers holds, in the order
/// they were appended.
pub uninterp spec fn uint32_builder_cells(builder: UInt32Builder) -> Seq<Cell>;

/// The cells that a builder of 64-bit unsigned integers holds, in the order
/// they were appended.
pub uninterp spec fn uint64_builder_cells(builder: UInt64Builder) -> Seq<Cell>;

/// The cells of a closed column, first to last. A date and a date-time are
/// the integers that the column stores for them.
pub uninterp spec fn series_cells(series: Series) -> Seq<Cell>;

/// The type of a closed column.
pub uninterp spec fn series_type(series: Series) -> FieldTypeView;

/// `BooleanChunkedBuilder::new`: a builder under the name `name` that holds
/// no cell and has room for `capacity` of them.
#[verifier::external_body]
pub(crate) fn boolean_builder_new(name: &str, capacity: usize) -> (r: BooleanChunkedBuilder)
    requires
        capacity <= MAX_CAPACITY,
    ensures
        boolean_builder_cells(r) == Seq::<Cell>::empty(),
{
    BooleanChunkedBuilder::new(name, capacity)
}

/// `ChunkedBuilder::append_option` of a boolean builder: one more cell at the
/// end, the value or null.
#[verifier::external_body]
pub(crate) fn boolean_builder_append(builder: &mut BooleanChunkedBuilder, v: Option<bool>)
    ensures
        boolean_builder_cells(*final(builder)) == boolean_builder_cells(*old(builder)).push(
            match v {
                Some(b) => Some(CellValue::Boolean(b)),
                None => None,
            },
        ),
{
    builder.append_option(v);
}

/// `ChunkedBuilder::finish` of a boolean builder, then
/// `IntoSeries::into_series`: the closed column is one of booleans and has
/// the builder's cells. The closed column counts its rows in 32 bits.
#[verifier::external_body]
pub(crate) fn boolean_builder_finish(builder: BooleanChunkedBuilder) -> (r: Series)
    requires
        boolean_builder_cells(builder).len() <= MAX_ROWS,
    ensures
        series_cells(r) == boolean_builder_cells(builder),
        series_type(r) == FieldTypeView::Boolean,
{
    builder.finish().into_series()
}

/// `Utf8ChunkedBuilder::new`: a builder under the name `name` that holds no
/// cell and has room for `capacity` of them and for `bytes_capacity` bytes
/// of text.
#[verifier::external_body]
pub(crate) fn utf8_builder_new(name: &str, capacity: usize, bytes_capacity: usize) -> (r:
    Utf8ChunkedBuilder)
    requires
        capacity <= MAX_CAPACITY,
        bytes_capacity <= 25 * MAX_CAPACITY,
    ensures
        utf8_builder_cells(r) == Seq::<Cell>::empty(),
{
    Utf8ChunkedBuilder::new(name, capacity, bytes_capacity)
}

/// `Utf8ChunkedBuilder::append_option`: one more cell at the end, the text
/// or null. The builder refuses text only once it holds more bytes than
/// 64 bits count, which is more than one allocation can hold.
#[verifier::external_body]
pub(crate) fn utf8_builder_append(builder: &mut Utf8ChunkedBuilder, v: Option<&str>)
    ensures
        utf8_builder_cells(*final(builder)) == utf8_builder_cells(*old(builder)).push(
            match v {
                Some(s) => Some(CellValue::Text(s@)),
                None => None,
            },
        ),
{
    builder.append_option(v);
}

/// `Utf8ChunkedBuilder::finish`, then `IntoSeries::into_series`: the closed
/// column is one of text and has the builder's cells.
#[verifier::external_body]
pub(crate) fn utf8_builder_finish(builder: Utf8ChunkedBuilder) -> (r: Series)
    requires
        utf8_builder_cells(builder).len() <= MAX_ROWS,
    ensures
        series_cells(r) == utf8_builder_cells(builder),
        series_type(r) == FieldTypeView::Utf8,
{
    builder.finish().into_series()
}

/// `PrimitiveChunkedBuilder::new` for 32-bit signed integers: a builder under
/// the name `name` that holds no cell and has room for `capacity` of them.
#[verifier::external_body]
pub(crate) fn int32_builder_new(name: &str, capacity: usize) -> (r: Int32Builder)
    requires
        capacity <= MAX_CAPACITY,
    ensures
        int32_builder_cells(r) == Seq::<Cell>::empty(),
{
    Int32Builder { inner: PrimitiveChunkedBuilder::new(name, capacity) }
}

/// `ChunkedBuilder::append_option` of that builder: one more cell at the end,
/// the integer or null.
#[verifier::external_body]
pub(crate) fn int32_builder_append(builder: &mut Int32Builder, v: Option<i32>)
    ensures
        int32_builder_cells(*final(builder)) == int32_builder_cells(*old(builder)).push(
            match v {
                Some(n) => Some(CellValue::Integer(n as int)),
                None => None,
            },
        ),
{
    builder.inner.append_option(v);
}

/// `ChunkedBuilder::finish` of that builder, then `IntoSeries::into_series`:
/// the closed column is of the builder's integers and has the builder's
/// cells.
#[verifier::external_body]
pub(crate) fn int32_builder_finish(builder: Int32Builder) -> (r: Series)
    requires
        int32_builder_cells(builder).len() <= MAX_ROWS,
    ensures
        series_cells(r) == int32_builder_cells(builder),
        series_type(r) == FieldTypeView::Int32,
{
    builder.inner.finish().into_series()
}

/// `PrimitiveChunkedBuilder::new` for 64-bit signed integers: a builder under
/// the name `name` that holds no cell and has room for `capacity` of them.
#[verifier::external_body]
pub(crate) fn int64_builder_new(name: &str, capacity: usize) -> (r: Int64Builder)
    requires
        capacity <= MAX_CAPACITY,
    ensures
        int64_builder_cells(r) == Seq::<Cell>::empty(),
{
    Int64Builder { inner: PrimitiveChunkedBuilder::new(name, capacity) }
}

/// `ChunkedBuilder::append_option` of that builder: one more cell at the end,
/// the integer or null.
#[verifier::external_body]
pub(crate) fn int64_builder_append(builder: &mut Int64Builder, v: Option<i64>)
    ensures
        int64_builder_cells(*final(builder)) == int64_builder_cells(*old(builder)).push(
            match v {
                Some(n) => Some(CellValue::Integer(n as int)),
                None => None,
            },
        ),
{
    builder.inner.append_option(v);
}

/// `ChunkedBuilder::finish` of that builder, then `IntoSeries::into_series`:
/// the closed column is of the builder's integers and has the builder's
/// cells.
#[verifier::external_body]
pub(crate) fn int64_builder_finish(builder: Int64Builder) -> (r: Series)
    requires
        int64_builder_cells(builder).len() <= MAX_ROWS,
    ensures
        series_cells(r) == int64_builder_cells(builder),
        series_type(r) == FieldTypeView::Int64,
{
    builder.inner.finish().into_series()
}

/// `PrimitiveChunkedBuilder::new` for 32-bit unsigned integers: a builder
/// under the name `name` that holds no cell and has room for `capacity` of
/// them.
#[verifier::external_body]
pub(crate) fn uint32_builder_new(name: &str, capacity: usize) -> (r: UInt32Builder)
    requires
        capacity <= MAX_CAPACITY,
    ensures
        uint32_builder_cells(r) == Seq::<Cell>::empty(),
{
    UInt32Builder { inner: PrimitiveChunkedBuilder::new(name, capacity) }
}

/// `ChunkedBuilder::append_option` of that builder: one more cell at the end,
/// the integer or null.
#[verifier::external_body]
pub(crate) fn uint32_builder_append(builder: &mut UInt32Builder, v: Option<u32>)
    ensures
        uint32_builder_cells(*final(builder)) == uint32_builder_cells(*old(builder)).push(
            match v {
                Some(n) => Some(CellValue::Integer(n as int)),
                None => None,
            },
        ),
{
    builder.inner.append_option(v);
}

/// `ChunkedBuilder::finish` of that builder, then `IntoSeries::into_series`:
/// the closed column is of the builder's integers and has the builder's
/// cells.
#[verifier::external_body]
pub(crate) fn uint32_builder_finish(builder: UInt32Builder) -> (r: Series)
    requires
        uint32_builder_cells(builder).len() <= MAX_ROWS,
    ensures
        series_cells(r) == uint32_builder_cells(builder),
        series_type(r) == FieldTypeView::UInt32,
{
    builder.inner.finish().into_series()
}

/// `PrimitiveChunkedBuilder::new` for 64-bit unsigned integers: a builder
/// under the name `name` that holds no cell and has room for `capacity` of
/// them.
#[verifier::external_body]
pub(crate) fn uint64_builder_new(name: &str, capacity: usize) -> (r: UInt64Builder)
    requires
        capacity <= MAX_CAPACITY,
    ensures
        uint64_builder_cells(r) == Seq::<Cell>::empty(),
{
    UInt64Builder { inner: PrimitiveChunkedBuilder::new(name, capacity) }
}

/// `ChunkedBuilder::append_option` of that builder: one more cell at the end,
/// the integer or null.
#[verifier::external_body]
pub(crate) fn uint64_builder_append(builder: &mut UInt64Builder, v: Option<u64>)
    ensures
        uint64_builder_cells(*final(builder)) == uint64_builder_cells(*old(builder)).push(
            match v {
                Some(n) => Some(CellValue::Integer(n as int)),
                None => None,
            },
        ),
{
    builder.inner.append_option(v);
}

/// `ChunkedBuilder::finish` of that builder, then `IntoSeries::into_series`:
/// the closed column is of the builder's integers and has the builder's
/// cells.
#[verifier::external_body]
pub(crate) fn uint64_builder_finish(builder: UInt64Builder) -> (r: Series)
    requires
        uint64_builder_cells(builder).len() <= MAX_ROWS,
    ensures
        series_cells(r) == uint64_builder_cells(builder),
        series_type(r) == FieldTypeView::UInt64,
{
    builder.inner.finish().into_series()
}

/// `ChunkedBuilder::finish` of a builder of 64-bit integers, then
/// `IntoSeries::into_series` and `Series::cast` to date-times of the given
/// unit: the closed column is one of date-times of that unit and has the
/// builder's cells, every stored integer as it is, read in that unit.
#[verifier::external_body]
pub(crate) fn int64_builder_finish_datetime(builder: Int64Builder, unit: TimeUnit) -> (r: Series)
    requires
        int64_builder_cells(builder).len() <= MAX_ROWS,
    ensures
        series_cells(r) == int64_builder_cells(builder),
        series_type(r) == FieldTypeView::Datetime(unit),
{
    let unit = match unit {
        TimeUnit::Nanoseconds => polars_core::prelude::TimeUnit::Nanoseconds,
        TimeUnit::Microseconds => polars_core::prelude::TimeUnit::Microseconds,
        TimeUnit::Milliseconds => polars_core::prelude::TimeUnit::Milliseconds,
    };
    builder.inner.finish().into_series().cast(&DataType::Datetime(unit, None)).unwrap()
}

/// `ChunkedBuilder::finish` of a builder of 32-bit integers, then
/// `IntoSeries::into_series` and `Series::cast` to dates: the closed column
/// is one of dates and has the builder's cells, every stored integer as it
/// is, read as days since the epoch.
#[verifier::external_body]
pub(crate) fn int32_builder_finish_date(builder: Int32Builder) -> (r: Series)
    requires
        int32_builder_cells(builder).len() <= MAX_ROWS,
    ensures
        series_cells(r) == int32_builder_cells(builder),
        series_type(r) == FieldTypeView::Date,
{
    builder.inner.finish().into_series().cast(&DataType::Date).unwrap()
}

} // verus!
