use polars_core::prelude::{DataType, Series};
use polars_mongo::buffer::{Buffer, Column, ColumnData};
use polars_mongo::cell::{ColumnKind, Number, MAX_ROWS};
use polars_mongo::error::ComputeError;
use polars_mongo::field_type::FieldType;
use polars_mongo::reader::{cols_to_mongo_projection, read, Materializer, Stage};
use polars_mongo::registry::{finalize_all, init_buffers, parse_line, parse_lines, Table};
use polars_mongo::schema::{infer_schema, Schema};
use polars_mongo::value::{Document, Double, RawValue};

fn doc(entries: Vec<(&str, RawValue)>) -> Document {
    let mut d = Document::new();
    for (k, v) in entries {
        d.push(k.to_string(), v);
    }
    d
}

fn double(x: f64) -> RawValue {
    RawValue::Double(Double { bits: x.to_bits(), integral: num::traits::cast::<f64, i128>(x) })
}

fn text(s: &str) -> RawValue {
    RawValue::String(s.to_string())
}

fn some(s: &str) -> Option<String> {
    Some(s.to_string())
}

fn closed(column: Column) -> Series {
    match column.into_data() {
        ColumnData::Closed(series) => series,
        ColumnData::Numbers(_) => panic!("a closed column was expected"),
    }
}

fn i32s(series: &Series) -> Vec<Option<i32>> {
    series.i32().unwrap().into_iter().collect()
}

fn texts(series: &Series) -> Vec<Option<String>> {
    series.utf8().unwrap().into_iter().map(|o| o.map(|s| s.to_string())).collect()
}

fn columns(table: Table) -> Vec<(String, Column)> {
    table.into_columns()
}

fn sample_two() -> Vec<Document> {
    vec![
        doc(vec![("n", RawValue::Int32(1)), ("s", text("hi"))]),
        doc(vec![("n", RawValue::Int32(2))]),
    ]
}

fn stream_three() -> Vec<Document> {
    vec![
        doc(vec![("n", RawValue::Int32(1)), ("s", text("hi"))]),
        doc(vec![("n", RawValue::Int32(2))]),
        doc(vec![("n", RawValue::Int32(3)), ("s", text("bye"))]),
    ]
}

#[test]
fn end_to_end_two_columns() {
    let table = read(&sample_two(), 100, &stream_three(), 3).unwrap();
    assert_eq!(table.width(), 2);
    assert_eq!(table.height(), 3);
    assert_eq!(table.name(0), "n");
    assert_eq!(table.name(1), "s");
    assert_eq!(table.column(0).field_type(), FieldType::Int32);
    assert_eq!(table.column(1).field_type(), FieldType::Utf8);
    let mut all = columns(table);
    let (s_name, s_col) = all.pop().unwrap();
    let (n_name, n_col) = all.pop().unwrap();
    assert_eq!(n_name, "n");
    assert_eq!(s_name, "s");
    let n = closed(n_col);
    assert_eq!(n.dtype(), &DataType::Int32);
    assert_eq!(n.name(), "n");
    assert_eq!(i32s(&n), vec![Some(1), Some(2), Some(3)]);
    let s = closed(s_col);
    assert_eq!(s.dtype(), &DataType::Utf8);
    assert_eq!(s.name(), "s");
    assert_eq!(texts(&s), vec![some("hi"), None, some("bye")]);
}

#[test]
fn every_column_has_one_cell_for_each_document() {
    for n in [0usize, 1, 2, 17] {
        let mut stream = Vec::new();
        for i in 0..n {
            if i % 2 == 0 {
                stream.push(doc(vec![("n", RawValue::Int32(i as i32))]));
            } else {
                stream.push(doc(vec![("s", text("x")), ("other", RawValue::Null)]));
            }
        }
        let table = read(&sample_two(), 2, &stream, 1000).unwrap();
        assert_eq!(table.height(), n);
        for (_, column) in columns(table) {
            assert_eq!(closed(column).len(), n);
        }
    }
}

#[test]
fn the_row_limit_bounds_the_stream() {
    let table = read(&sample_two(), 2, &stream_three(), 2).unwrap();
    assert_eq!(table.height(), 2);
    let mut all = columns(table);
    assert_eq!(texts(&closed(all.pop().unwrap().1)), vec![some("hi"), None]);
    assert_eq!(i32s(&closed(all.pop().unwrap().1)), vec![Some(1), Some(2)]);
    let none = read(&sample_two(), 2, &stream_three(), 0).unwrap();
    assert_eq!(none.height(), 0);
    assert_eq!(none.width(), 2);
    let all_rows = read(&sample_two(), 2, &stream_three(), usize::MAX).unwrap();
    assert_eq!(all_rows.height(), 3);
}

#[test]
fn absent_field_is_null_at_its_row() {
    let sample = vec![doc(vec![("a", RawValue::Int32(1)), ("b", RawValue::Boolean(true))])];
    let stream = vec![
        doc(vec![("b", RawValue::Boolean(false))]),
        doc(vec![("a", RawValue::Int32(5)), ("b", RawValue::Boolean(true))]),
        doc(vec![]),
        doc(vec![("a", RawValue::Int32(7))]),
    ];
    let mut all = columns(read(&sample, 1, &stream, 10).unwrap());
    let b: Vec<Option<bool>> = closed(all.pop().unwrap().1).bool().unwrap().into_iter().collect();
    assert_eq!(b, vec![Some(false), Some(true), None, None]);
    assert_eq!(i32s(&closed(all.pop().unwrap().1)), vec![None, Some(5), None, Some(7)]);
}

#[test]
fn fields_outside_the_schema_are_ignored() {
    let sample = vec![doc(vec![("a", RawValue::Int32(1))])];
    let stream = vec![
        doc(vec![("late", text("x")), ("a", RawValue::Int32(2))]),
        doc(vec![("late", text("y"))]),
    ];
    let table = read(&sample, 1, &stream, 10).unwrap();
    assert_eq!(table.width(), 1);
    assert_eq!(table.name(0), "a");
    let mut all = columns(table);
    assert_eq!(i32s(&closed(all.pop().unwrap().1)), vec![Some(2), None]);
}

#[test]
fn type_drift_after_the_sample_is_null_not_an_error() {
    let sample = vec![doc(vec![("a", RawValue::Int32(1))])];
    let stream = vec![
        doc(vec![("a", RawValue::Int64(1 << 40))]),
        doc(vec![("a", text("seven"))]),
        doc(vec![("a", RawValue::Boolean(true))]),
        doc(vec![("a", double(2.5))]),
    ];
    let mut all = columns(read(&sample, 1, &stream, 10).unwrap());
    assert_eq!(i32s(&closed(all.pop().unwrap().1)), vec![None, None, Some(1), Some(2)]);
}

#[test]
fn a_floating_point_field_gives_a_column_of_numbers() {
    let sample = vec![doc(vec![("x", RawValue::Int32(1))]), doc(vec![("x", double(0.25))])];
    let stream = vec![
        doc(vec![("x", RawValue::Int32(1))]),
        doc(vec![("x", double(0.25))]),
        doc(vec![]),
    ];
    let table = read(&sample, 2, &stream, 10).unwrap();
    assert_eq!(table.column(0).field_type(), FieldType::Float64);
    assert_eq!(table.column(0).column_kind(), ColumnKind::Float64);
    let mut all = columns(table);
    match all.pop().unwrap().1.into_data() {
        ColumnData::Numbers(numbers) => assert_eq!(
            numbers,
            vec![Some(Number::Integer(1)), Some(Number::Double(0.25f64.to_bits())), None]
        ),
        ColumnData::Closed(_) => panic!("a column of numbers was expected"),
    }
}

#[test]
fn a_field_that_is_always_null_has_no_buffer() {
    let sample = vec![doc(vec![("a", RawValue::Int32(1)), ("gone", RawValue::Null)])];
    let err = read(&sample, 1, &sample, 10).err().unwrap();
    assert_eq!(err, ComputeError::UnsupportedType { field: "gone".to_string() });
    assert_eq!(err.message(), "unsupported data type of field gone");
}

#[test]
fn init_buffers_follows_the_schema() {
    let schema = infer_schema(&stream_three(), 3);
    let buffers = init_buffers(&schema, 16).unwrap();
    assert_eq!(buffers.len(), 2);
    assert_eq!(buffers[0].0, "n");
    assert_eq!(buffers[0].1.column_kind(), ColumnKind::Int32);
    assert_eq!(buffers[0].1.len(), 0);
    assert_eq!(buffers[1].0, "s");
    assert_eq!(buffers[1].1.column_kind(), ColumnKind::Utf8);
    assert_eq!(init_buffers(&Schema::new(), 16).unwrap().len(), 0);
}

#[test]
fn init_buffers_fails_on_the_first_type_without_a_buffer() {
    let schema = Schema::new()
        .observe(&"ok".to_string(), &FieldType::Int32)
        .observe(&"undefined".to_string(), &FieldType::Unknown)
        .observe(&"null".to_string(), &FieldType::Null);
    let err = init_buffers(&schema, 1).err().unwrap();
    assert_eq!(err, ComputeError::UnsupportedType { field: "undefined".to_string() });
}

#[test]
fn parse_line_grows_every_buffer_by_one() {
    let schema = infer_schema(&stream_three(), 3);
    let mut buffers = init_buffers(&schema, 4).unwrap();
    parse_line(&doc(vec![("s", text("only s"))]), &mut buffers);
    assert_eq!(buffers[0].1.len(), 1);
    assert_eq!(buffers[1].1.len(), 1);
    parse_lines(&stream_three(), 2, &mut buffers);
    assert_eq!(buffers[0].1.len(), 3);
    assert_eq!(buffers[1].1.len(), 3);
    let mut all = columns(finalize_all(buffers).unwrap());
    assert_eq!(texts(&closed(all.pop().unwrap().1)), vec![some("only s"), some("hi"), None]);
    assert_eq!(i32s(&closed(all.pop().unwrap().1)), vec![None, Some(1), Some(2)]);
}

#[test]
fn finalize_all_rejects_columns_of_unequal_length() {
    let mut a = Buffer::new("a", ColumnKind::Int32, 4);
    let mut b = Buffer::new("b", ColumnKind::Int32, 4);
    let c = Buffer::new("c", ColumnKind::Int32, 4);
    a.add(&RawValue::Int32(1));
    b.add(&RawValue::Int32(1));
    let buffers = vec![("a".to_string(), a), ("b".to_string(), b), ("c".to_string(), c)];
    let err = finalize_all(buffers).err().unwrap();
    assert_eq!(err, ComputeError::LengthMismatch { field: "c".to_string() });
    assert_eq!(err.message(), "unequal length of column c");
}

#[test]
fn finalize_all_of_no_buffers_is_an_empty_table() {
    let table = finalize_all(Vec::new()).unwrap();
    assert_eq!(table.width(), 0);
    assert_eq!(table.height(), 0);
}

#[test]
fn a_pass_goes_through_its_stages() {
    let mut pass = Materializer::new(3);
    assert_eq!(pass.current_stage(), Stage::Uninitialized);
    assert_eq!(pass.remaining(), 3);
    assert_eq!(pass.infer_schema(&sample_two(), 100), Ok(()));
    assert_eq!(pass.current_stage(), Stage::SchemaInferred);
    assert_eq!(pass.open_buffers(), Ok(()));
    assert_eq!(pass.current_stage(), Stage::BuffersOpen);
    for d in stream_three() {
        assert_eq!(pass.push(&d), Ok(()));
    }
    assert_eq!(pass.height(), 3);
    assert_eq!(pass.remaining(), 0);
    let table = pass.finalize().unwrap();
    assert_eq!(pass.current_stage(), Stage::Finalized);
    assert_eq!(table.height(), 3);
    let mut all = columns(table);
    assert_eq!(texts(&closed(all.pop().unwrap().1)), vec![some("hi"), None, some("bye")]);
    assert_eq!(i32s(&closed(all.pop().unwrap().1)), vec![Some(1), Some(2), Some(3)]);
}

#[test]
fn finalizing_twice_is_rejected() {
    let mut pass = Materializer::new(10);
    pass.infer_schema(&sample_two(), 2).unwrap();
    pass.open_buffers().unwrap();
    pass.push(&doc(vec![("n", RawValue::Int32(1))])).unwrap();
    assert!(pass.finalize().is_ok());
    assert_eq!(pass.finalize().err(), Some(ComputeError::Finalized));
    assert_eq!(pass.finalize().err(), Some(ComputeError::Finalized));
    assert_eq!(pass.current_stage(), Stage::Finalized);
    assert_eq!(pass.height(), 1);
}

#[test]
fn a_finalized_pass_takes_no_further_step() {
    let mut pass = Materializer::new(10);
    pass.infer_schema(&sample_two(), 2).unwrap();
    pass.open_buffers().unwrap();
    pass.finalize().unwrap();
    assert_eq!(pass.push(&doc(vec![])), Err(ComputeError::Finalized));
    assert_eq!(pass.infer_schema(&sample_two(), 2), Err(ComputeError::Finalized));
    assert_eq!(pass.open_buffers(), Err(ComputeError::Finalized));
    assert_eq!(ComputeError::Finalized.message(), "already finalized");
}

#[test]
fn steps_out_of_order_are_refused() {
    let mut pass = Materializer::new(10);
    assert_eq!(pass.push(&doc(vec![])), Err(ComputeError::OutOfOrder));
    assert_eq!(pass.open_buffers(), Err(ComputeError::OutOfOrder));
    assert_eq!(pass.finalize().err(), Some(ComputeError::OutOfOrder));
    assert_eq!(pass.current_stage(), Stage::Uninitialized);
    pass.infer_schema(&sample_two(), 2).unwrap();
    assert_eq!(pass.infer_schema(&sample_two(), 2), Err(ComputeError::OutOfOrder));
    assert_eq!(pass.push(&doc(vec![])), Err(ComputeError::OutOfOrder));
    assert_eq!(pass.finalize().err(), Some(ComputeError::OutOfOrder));
    assert_eq!(pass.current_stage(), Stage::SchemaInferred);
    pass.open_buffers().unwrap();
    assert_eq!(pass.open_buffers(), Err(ComputeError::OutOfOrder));
    assert_eq!(pass.infer_schema(&sample_two(), 2), Err(ComputeError::OutOfOrder));
    assert_eq!(pass.current_stage(), Stage::BuffersOpen);
    assert_eq!(ComputeError::OutOfOrder.message(), "step out of order");
}

#[test]
fn the_row_limit_refuses_further_documents() {
    let mut pass = Materializer::new(2);
    pass.infer_schema(&sample_two(), 2).unwrap();
    pass.open_buffers().unwrap();
    assert_eq!(pass.push(&doc(vec![("n", RawValue::Int32(1))])), Ok(()));
    assert_eq!(pass.push(&doc(vec![("n", RawValue::Int32(2))])), Ok(()));
    assert_eq!(pass.push(&doc(vec![("n", RawValue::Int32(3))])), Err(ComputeError::RowLimit));
    assert_eq!(pass.height(), 2);
    assert_eq!(ComputeError::RowLimit.message(), "row limit reached");
    let mut all = columns(pass.finalize().unwrap());
    all.pop();
    assert_eq!(i32s(&closed(all.pop().unwrap().1)), vec![Some(1), Some(2)]);
}

#[test]
fn a_pass_with_an_unsupported_field_stays_where_it_is() {
    let mut pass = Materializer::new(2);
    pass.infer_schema(&vec![doc(vec![("u", RawValue::Undefined)])], 1).unwrap();
    assert_eq!(
        pass.open_buffers(),
        Err(ComputeError::UnsupportedType { field: "u".to_string() })
    );
    assert_eq!(pass.current_stage(), Stage::SchemaInferred);
}

#[test]
fn a_row_limit_is_never_more_than_a_column_can_hold() {
    let pass = Materializer::new(usize::MAX);
    assert_eq!(pass.remaining(), MAX_ROWS);
}

#[test]
fn a_pass_without_fields_has_no_rows() {
    let mut pass = Materializer::new(5);
    pass.infer_schema(&Vec::new(), 5).unwrap();
    pass.open_buffers().unwrap();
    pass.push(&doc(vec![("a", RawValue::Int32(1))])).unwrap();
    assert_eq!(pass.height(), 1);
    let table = pass.finalize().unwrap();
    assert_eq!(table.width(), 0);
    assert_eq!(table.height(), 0);
}

#[test]
fn projection_names_each_column_with_one() {
    let cols = vec!["ticker".to_string(), "peers".to_string(), "address".to_string()];
    let projection = cols_to_mongo_projection(&cols);
    assert_eq!(projection.len(), 3);
    assert_eq!(projection.get(&"ticker".to_string()), Some(&RawValue::Int64(1)));
    assert_eq!(projection.get(&"peers".to_string()), Some(&RawValue::Int64(1)));
    assert_eq!(projection.get(&"address".to_string()), Some(&RawValue::Int64(1)));
    assert_eq!(projection.entries[1].0, "peers");
    assert_eq!(cols_to_mongo_projection(&Vec::new()).len(), 0);
}

#[test]
fn projection_holds_a_repeated_name_once() {
    let cols: Vec<String> =
        ["a", "a", "b", "a", "c", "b"].iter().map(|name| name.to_string()).collect();
    let projection = cols_to_mongo_projection(&cols);
    assert_eq!(projection.len(), 3);
    let names: Vec<&str> = projection.entries.iter().map(|entry| entry.0.as_str()).collect();
    assert_eq!(names, vec!["a", "b", "c"]);
    for name in &cols {
        assert_eq!(projection.get(name), Some(&RawValue::Int64(1)));
    }
    assert_eq!(projection.get(&"d".to_string()), None);
    let twice = cols_to_mongo_projection(&vec!["a".to_string(), "a".to_string()]);
    assert_eq!(twice.len(), 1);
}

#[test]
fn a_date_time_field_keeps_its_unit_and_its_instants() {
    let sample = vec![doc(vec![("at", RawValue::DateTime(1_000))])];
    let stream = vec![
        doc(vec![("at", RawValue::DateTime(1_000))]),
        doc(vec![("at", text("1970-01-01 00:00:01"))]),
        doc(vec![]),
    ];
    let table = read(&sample, 1, &stream, 10).unwrap();
    assert_eq!(
        table.column(0).field_type(),
        FieldType::Datetime(polars_mongo::field_type::TimeUnit::Milliseconds)
    );
    let mut all = columns(table);
    let series = closed(all.pop().unwrap().1);
    assert_eq!(
        series.dtype(),
        &DataType::Datetime(polars_core::prelude::TimeUnit::Milliseconds, None)
    );
    let stored: Vec<Option<i64>> =
        series.to_physical_repr().i64().unwrap().into_iter().collect();
    assert_eq!(stored, vec![Some(1_000), Some(1_000), None]);
}
