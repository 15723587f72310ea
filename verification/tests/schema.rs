use polars_mongo::field_type::{FieldType, TimeUnit};
use polars_mongo::schema::{infer_schema, Schema};
use polars_mongo::value::{Document, Double, RawValue};

fn doc(entries: Vec<(&str, RawValue)>) -> Document {
    let mut d = Document::new();
    for (k, v) in entries {
        d.push(k.to_string(), v);
    }
    d
}

fn double(x: f64) -> RawValue {
    RawValue::Double(Double { bits: x.to_bits(), integral: num::traits::cast::<f64, i128>(x) })
}

fn text(s: &str) -> RawValue {
    RawValue::String(s.to_string())
}

fn fields(schema: &Schema) -> Vec<(String, FieldType)> {
    let mut out = Vec::new();
    for i in 0..schema.len() {
        out.push((schema.name(i).clone(), schema.field_type(i).column_type()));
    }
    out
}

#[test]
fn null_is_the_identity_of_merging() {
    assert_eq!(FieldType::Null.merge(&FieldType::Int32), FieldType::Int32);
    assert_eq!(FieldType::Date.merge(&FieldType::Null), FieldType::Date);
    assert_eq!(FieldType::Null.merge(&FieldType::Null), FieldType::Null);
}

#[test]
fn equal_types_merge_to_themselves() {
    assert_eq!(FieldType::Boolean.merge(&FieldType::Boolean), FieldType::Boolean);
    assert_eq!(FieldType::Utf8.merge(&FieldType::Utf8), FieldType::Utf8);
    assert_eq!(FieldType::UInt64.merge(&FieldType::UInt64), FieldType::UInt64);
    assert_eq!(FieldType::Unknown.merge(&FieldType::Unknown), FieldType::Unknown);
    assert_eq!(
        FieldType::Datetime(TimeUnit::Milliseconds)
            .merge(&FieldType::Datetime(TimeUnit::Milliseconds)),
        FieldType::Datetime(TimeUnit::Milliseconds)
    );
}

#[test]
fn numeric_types_merge_to_the_wider() {
    assert_eq!(FieldType::Int32.merge(&FieldType::Int64), FieldType::Int64);
    assert_eq!(FieldType::Int64.merge(&FieldType::Int32), FieldType::Int64);
    assert_eq!(FieldType::Int64.merge(&FieldType::Float64), FieldType::Float64);
    assert_eq!(FieldType::Float32.merge(&FieldType::UInt64), FieldType::Float32);
    assert_eq!(FieldType::UInt32.merge(&FieldType::Int32), FieldType::UInt32);
}

#[test]
fn numeric_ranks_are_in_the_order_of_widening() {
    assert_eq!(FieldType::Int32.numeric_rank(), 1);
    assert_eq!(FieldType::UInt32.numeric_rank(), 2);
    assert_eq!(FieldType::Int64.numeric_rank(), 3);
    assert_eq!(FieldType::UInt64.numeric_rank(), 4);
    assert_eq!(FieldType::Float32.numeric_rank(), 5);
    assert_eq!(FieldType::Float64.numeric_rank(), 6);
    assert_eq!(FieldType::Utf8.numeric_rank(), 0);
    assert!(FieldType::Float32.is_numeric());
    assert!(!FieldType::Boolean.is_numeric());
}

#[test]
fn irreconcilable_types_merge_to_text() {
    assert_eq!(FieldType::Int32.merge(&FieldType::Utf8), FieldType::Utf8);
    assert_eq!(FieldType::Boolean.merge(&FieldType::Int32), FieldType::Utf8);
    assert_eq!(FieldType::Date.merge(&FieldType::Boolean), FieldType::Utf8);
    assert_eq!(FieldType::Unknown.merge(&FieldType::Int64), FieldType::Utf8);
    assert_eq!(
        FieldType::Datetime(TimeUnit::Milliseconds)
            .merge(&FieldType::Datetime(TimeUnit::Microseconds)),
        FieldType::Utf8
    );
}

#[test]
fn compound_types_are_columns_of_text() {
    let list = FieldType::List(Box::new(FieldType::Int32));
    let record = FieldType::Struct(vec![("a".to_string(), FieldType::Int32)]);
    assert_eq!(list.column_type(), FieldType::Utf8);
    assert_eq!(record.column_type(), FieldType::Utf8);
    assert_eq!(FieldType::Int64.column_type(), FieldType::Int64);
    assert_eq!(list.merge(&FieldType::Null), FieldType::Utf8);
    assert_eq!(record.merge(&FieldType::Int32), FieldType::Utf8);
    assert_eq!(record.merge(&FieldType::Utf8), FieldType::Utf8);
    assert!(!list.has_buffer());
    assert!(!FieldType::Null.has_buffer());
    assert!(!FieldType::Unknown.has_buffer());
    assert!(FieldType::Date.has_buffer());
}

#[test]
fn merging_is_the_same_in_either_order() {
    let all = vec![
        FieldType::Boolean,
        FieldType::Int32,
        FieldType::Int64,
        FieldType::UInt32,
        FieldType::UInt64,
        FieldType::Float32,
        FieldType::Float64,
        FieldType::Utf8,
        FieldType::Datetime(TimeUnit::Milliseconds),
        FieldType::Date,
        FieldType::Null,
        FieldType::Unknown,
    ];
    for a in &all {
        for b in &all {
            assert_eq!(a.merge(b), b.merge(a));
        }
    }
}

#[test]
fn number_then_text_resolves_to_text() {
    let sample = vec![doc(vec![("a", RawValue::Int32(1))]), doc(vec![("a", text("x"))])];
    let first = infer_schema(&sample, 2);
    assert_eq!(fields(&first), vec![("a".to_string(), FieldType::Utf8)]);
    let again = infer_schema(&sample, 2);
    assert_eq!(fields(&again), fields(&first));
    let reversed = vec![doc(vec![("a", text("x"))]), doc(vec![("a", RawValue::Int32(1))])];
    assert_eq!(fields(&infer_schema(&reversed, 2)), fields(&first));
}

#[test]
fn fields_come_in_the_order_first_seen() {
    let sample = vec![
        doc(vec![("b", RawValue::Int32(1)), ("a", text("x"))]),
        doc(vec![("c", RawValue::Boolean(true)), ("a", text("y")), ("b", RawValue::Int64(2))]),
    ];
    let schema = infer_schema(&sample, 10);
    assert_eq!(
        fields(&schema),
        vec![
            ("b".to_string(), FieldType::Int64),
            ("a".to_string(), FieldType::Utf8),
            ("c".to_string(), FieldType::Boolean),
        ]
    );
}

#[test]
fn at_most_the_sample_size_is_read() {
    let sample = vec![
        doc(vec![("a", RawValue::Int32(1))]),
        doc(vec![("a", double(1.5)), ("b", text("x"))]),
    ];
    assert_eq!(fields(&infer_schema(&sample, 1)), vec![("a".to_string(), FieldType::Int32)]);
    assert_eq!(fields(&infer_schema(&sample, 0)), vec![]);
    assert_eq!(
        fields(&infer_schema(&sample, 2)),
        vec![("a".to_string(), FieldType::Float64), ("b".to_string(), FieldType::Utf8)]
    );
    assert_eq!(fields(&infer_schema(&sample, 7)), fields(&infer_schema(&sample, 2)));
}

#[test]
fn null_in_the_sample_leaves_the_type_of_the_field() {
    let sample = vec![
        doc(vec![("a", RawValue::Null)]),
        doc(vec![("a", RawValue::Int32(1))]),
        doc(vec![("a", RawValue::Null)]),
    ];
    assert_eq!(fields(&infer_schema(&sample, 3)), vec![("a".to_string(), FieldType::Int32)]);
}

#[test]
fn compound_fields_of_the_sample_become_text() {
    let sample = vec![doc(vec![
        ("list", RawValue::Array(vec![RawValue::Int32(1)])),
        ("inner", RawValue::Document(doc(vec![("x", RawValue::Int32(1))]))),
    ])];
    assert_eq!(
        fields(&infer_schema(&sample, 1)),
        vec![("list".to_string(), FieldType::Utf8), ("inner".to_string(), FieldType::Utf8)]
    );
}

#[test]
fn schema_by_hand() {
    let name = "a".to_string();
    let schema = Schema::new().observe(&name, &FieldType::Int32);
    assert_eq!(schema.len(), 1);
    assert_eq!(schema.index_of(&name), Some(0));
    assert_eq!(schema.index_of(&"b".to_string()), None);
    let schema = schema
        .observe(&name, &FieldType::Int64)
        .observe(&"b".to_string(), &FieldType::Date);
    assert_eq!(
        fields(&schema),
        vec![("a".to_string(), FieldType::Int64), ("b".to_string(), FieldType::Date)]
    );
}
