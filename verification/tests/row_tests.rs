//! Bind collection, row materialization, field access and cursor order.

use diesel_duckdb::bind_collector::{DuckDbBindCollector, IsNull};
use diesel_duckdb::error::Error;
use diesel_duckdb::row::{DuckDbCursor, DuckDbRow};
use diesel_duckdb::scalar::ScalarValue;

fn names(list: &[&str]) -> Vec<String> {
    list.iter().map(|s| String::from(*s)).collect()
}

#[test]
fn collector_keeps_positional_order() {
    let mut c = DuckDbBindCollector::new();
    c.push_bound_value(Ok((ScalarValue::Int(30), IsNull::No))).unwrap();
    c.push_bound_value(Ok((ScalarValue::Text(String::from("John Doe")), IsNull::No))).unwrap();
    let params = c.into_params();
    assert_eq!(params.len(), 2);
    assert!(matches!(params[0], ScalarValue::Int(30)));
    match &params[1] {
        ScalarValue::Text(s) => assert_eq!(s, "John Doe"),
        other => panic!("wrong variant: {:?}", other),
    }
}

#[test]
fn explicit_null_overwrites_intermediate_value() {
    // The conversion built an intermediate value but declared the result
    // null: the null wins, nothing stale reaches the buffer.
    let mut c = DuckDbBindCollector::new();
    c.push_bound_value(Ok((ScalarValue::Int(77), IsNull::Yes))).unwrap();
    let params = c.into_params();
    assert_eq!(params.len(), 1);
    assert!(params[0].is_null());
}

#[test]
fn failed_conversion_appends_nothing() {
    let mut c = DuckDbBindCollector::new();
    let r = c.push_bound_value(Err(String::from("cannot encode")));
    match r {
        Err(Error::SerializationError(m)) => assert_eq!(m, "cannot encode"),
        other => panic!("expected a serialization error, got {:?}", other),
    }
    assert_eq!(c.into_params().len(), 0);
}

#[test]
fn push_null_value_reads_back_as_null() {
    // Whatever category the position was declared with, a directly pushed
    // null yields a field whose is_null() is true.
    let mut c = DuckDbBindCollector::new();
    c.push_null_value().unwrap();
    let params = c.into_params();
    let row = DuckDbRow::from_parts(names(&["age"]), params);
    let field = row.get(0).unwrap();
    assert!(field.is_null());
    assert!(field.value().unwrap().is_null());
}

#[test]
fn field_access_by_index_and_name() {
    let row = DuckDbRow::from_parts(
        names(&["id", "name", "age"]),
        vec![
            ScalarValue::Int(42),
            ScalarValue::Text(String::from("Alice Cooper")),
            ScalarValue::Int(75),
        ],
    );
    assert_eq!(row.field_count(), 3);

    let by_index = row.get(1).unwrap();
    assert_eq!(by_index.field_name(), Some("name"));
    match by_index.value().unwrap() {
        ScalarValue::Text(s) => assert_eq!(s, "Alice Cooper"),
        other => panic!("wrong variant: {:?}", other),
    }
    assert!(!by_index.is_null());

    let by_name = row.get_by_name("age").unwrap();
    assert_eq!(by_name.field_name(), Some("age"));
    assert!(matches!(by_name.value().unwrap(), ScalarValue::Int(75)));
}

#[test]
fn missing_positions_and_names_yield_none_not_an_error() {
    let row = DuckDbRow::from_parts(names(&["id"]), vec![ScalarValue::Int(1)]);
    assert!(row.get(1).is_none());
    assert!(row.get_by_name("missing").is_none());
}

#[test]
fn name_lookup_takes_the_first_match() {
    let row = DuckDbRow::from_parts(
        names(&["v", "v"]),
        vec![ScalarValue::Int(1), ScalarValue::Int(2)],
    );
    let f = row.get_by_name("v").unwrap();
    assert!(matches!(f.value().unwrap(), ScalarValue::Int(1)));
}

#[test]
fn cursor_yields_rows_in_order_then_none() {
    let rows = vec![
        DuckDbRow::from_parts(names(&["id"]), vec![ScalarValue::Int(1)]),
        DuckDbRow::from_parts(names(&["id"]), vec![ScalarValue::Int(2)]),
        DuckDbRow::from_parts(names(&["id"]), vec![ScalarValue::Int(3)]),
    ];
    let mut cur = DuckDbCursor::new(rows);
    for expected in [1, 2, 3] {
        let row = cur.next().unwrap().unwrap();
        match row.get(0).unwrap().value().unwrap() {
            ScalarValue::Int(i) => assert_eq!(*i, expected),
            other => panic!("wrong variant: {:?}", other),
        }
    }
    assert!(cur.next().is_none());
}

#[test]
fn empty_result_set_is_no_error() {
    // A query that matched nothing materializes zero rows; consuming the
    // cursor reports the end, not a failure.
    let mut cur = DuckDbCursor::new(Vec::new());
    assert!(cur.next().is_none());
    assert!(cur.next().is_none());
}
