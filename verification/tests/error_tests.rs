//! Classification of engine messages, extraction of table, column and
//! constraint names, and the translation of every native failure shape.

use diesel_duckdb::error::{
    classify_error_message, extract_column_name, extract_constraint_name, extract_table_name,
    translate_native_error, DatabaseErrorKind, DuckDbErrorInformation, Error, NativeError,
};

#[test]
fn classify_unique_and_duplicate() {
    assert_eq!(
        classify_error_message("Constraint Error: Duplicate key violates primary key"),
        DatabaseErrorKind::UniqueViolation
    );
    assert_eq!(
        classify_error_message("UNIQUE constraint failed"),
        DatabaseErrorKind::UniqueViolation
    );
}

#[test]
fn classify_is_case_insensitive() {
    assert_eq!(classify_error_message("NOT NULL violated"), DatabaseErrorKind::NotNullViolation);
    assert_eq!(classify_error_message("not null violated"), DatabaseErrorKind::NotNullViolation);
    assert_eq!(
        classify_error_message("violates FOREIGN KEY constraint"),
        DatabaseErrorKind::ForeignKeyViolation
    );
    assert_eq!(
        classify_error_message("CHECK constraint failed: positive_age"),
        DatabaseErrorKind::CheckViolation
    );
}

#[test]
fn classify_unknown_otherwise() {
    assert_eq!(classify_error_message("IO Error: disk full"), DatabaseErrorKind::Unknown);
    assert_eq!(classify_error_message(""), DatabaseErrorKind::Unknown);
}

#[test]
fn classify_prefers_unique_over_later_kinds() {
    // "unique" wins even when another marker also appears later.
    assert_eq!(
        classify_error_message("unique index on a not null column"),
        DatabaseErrorKind::UniqueViolation
    );
}

#[test]
fn extract_table_name_takes_token_after_marker() {
    assert_eq!(
        extract_table_name("no such table users. Did you mean something else?"),
        Some(String::from("users"))
    );
    assert_eq!(extract_table_name("error in table users more text"), Some(String::from("users")));
}

#[test]
fn extract_table_name_strips_quotes() {
    // A quoted name terminates the token at the opening quote, exactly as
    // a delimiter search over the remainder does.
    assert_eq!(extract_table_name("error in table [users] here"), Some(String::from("[users]")));
    assert_eq!(extract_table_name("error in table \"users\" here"), Some(String::from("")));
}

#[test]
fn extract_returns_none_without_marker_or_terminator() {
    assert_eq!(extract_table_name("no marker here"), None);
    // The marker is present but the token never ends.
    assert_eq!(extract_table_name("no such table users"), None);
}

#[test]
fn extract_token_ends_at_any_white_space() {
    assert_eq!(extract_table_name("error in table users\tmore"), Some(String::from("users")));
    assert_eq!(extract_table_name("error in table users\nmore"), Some(String::from("users")));
}

#[test]
fn extract_column_and_constraint_names() {
    assert_eq!(
        extract_column_name("NOT NULL constraint failed on column age of relation users"),
        Some(String::from("age"))
    );
    assert_eq!(
        extract_constraint_name("violates constraint positive_age during insert"),
        Some(String::from("positive_age"))
    );
    // A period ends the token for every marker.
    assert_eq!(extract_column_name("bad column users.age here"), Some(String::from("users")));
    assert_eq!(
        extract_constraint_name("bad constraint users.age here"),
        Some(String::from("users"))
    );
    assert_eq!(extract_constraint_name("constraint x.y"), Some(String::from("x")));
}

#[test]
fn engine_failure_is_classified_and_mined() {
    let e = NativeError::EngineFailure {
        message: Some(String::from(
            "Constraint Error: Duplicate key violates unique constraint pk_users on table users here",
        )),
        code_text: String::from("Error"),
    };
    match translate_native_error(e) {
        Error::DatabaseError(kind, info) => {
            assert_eq!(kind, DatabaseErrorKind::UniqueViolation);
            assert_eq!(info.table_name, Some(String::from("users")));
            assert_eq!(info.constraint_name, Some(String::from("pk_users")));
            assert_eq!(info.column_name, None);
            assert_eq!(info.statement_position, None);
        }
        other => panic!("expected a database error, got {:?}", other),
    }
}

#[test]
fn engine_failure_without_message_reports_the_code() {
    let e = NativeError::EngineFailure { message: None, code_text: String::from("IO") };
    match translate_native_error(e) {
        Error::DatabaseError(kind, info) => {
            assert_eq!(kind, DatabaseErrorKind::Unknown);
            assert_eq!(info.error_message, "DuckDB error code: IO");
        }
        other => panic!("expected a database error, got {:?}", other),
    }
}

#[test]
fn parameter_count_mismatch_translates_to_structured_error() {
    match translate_native_error(NativeError::InvalidParameterCount(1, 2)) {
        Error::DatabaseError(kind, info) => {
            assert_eq!(kind, DatabaseErrorKind::Unknown);
            assert_eq!(info.error_message, "Invalid parameter count: expected 1, got 2");
            assert_eq!(info.table_name, None);
        }
        other => panic!("expected a database error, got {:?}", other),
    }
}

#[test]
fn column_access_failures_translate_to_deserialization_errors() {
    match translate_native_error(NativeError::InvalidColumnIndex(7)) {
        Error::DeserializationError(m) => assert_eq!(m, "Invalid column index: 7"),
        other => panic!("expected a deserialization error, got {:?}", other),
    }
    match translate_native_error(NativeError::InvalidColumnName(String::from("agee"))) {
        Error::DeserializationError(m) => assert_eq!(m, "Invalid column name: agee"),
        other => panic!("expected a deserialization error, got {:?}", other),
    }
    match translate_native_error(NativeError::InvalidColumnType {
        index: 2,
        name: String::from("age"),
        column_type: String::from("VARCHAR"),
    }) {
        Error::DeserializationError(m) => {
            assert_eq!(m, "Invalid column type at index 2, name 'age': VARCHAR")
        }
        other => panic!("expected a deserialization error, got {:?}", other),
    }
}

#[test]
fn remaining_native_variants_map_one_to_one() {
    match translate_native_error(NativeError::StatementChangedRows(3)) {
        Error::DeserializationError(m) => assert_eq!(m, "Unexpected number of changed rows: 3"),
        other => panic!("expected a deserialization error, got {:?}", other),
    }
    match translate_native_error(NativeError::InvalidPath(String::from("/bad/db"))) {
        Error::DeserializationError(m) => assert_eq!(m, "Invalid path: /bad/db"),
        other => panic!("expected a deserialization error, got {:?}", other),
    }
    match translate_native_error(NativeError::ToSqlConversionFailure(String::from("oops"))) {
        Error::SerializationError(m) => assert_eq!(m, "oops"),
        other => panic!("expected a serialization error, got {:?}", other),
    }
    match translate_native_error(NativeError::FromSqlConversionFailure {
        index: 0,
        name: String::from("INT"),
        detail: String::from("bad digit"),
    }) {
        Error::DeserializationError(m) => {
            assert_eq!(m, "Conversion failure at column 0 ('INT'): bad digit")
        }
        other => panic!("expected a deserialization error, got {:?}", other),
    }
    match translate_native_error(NativeError::Utf8Error(String::from("invalid utf-8"))) {
        Error::DeserializationError(m) => assert_eq!(m, "UTF-8 conversion error: invalid utf-8"),
        other => panic!("expected a deserialization error, got {:?}", other),
    }
    match translate_native_error(NativeError::NulError(String::from("nul at 3"))) {
        Error::DeserializationError(m) => assert_eq!(m, "Null byte in string: nul at 3"),
        other => panic!("expected a deserialization error, got {:?}", other),
    }
    match translate_native_error(NativeError::Other(String::from("something else"))) {
        Error::DatabaseError(kind, info) => {
            assert_eq!(kind, DatabaseErrorKind::Unknown);
            assert_eq!(info.error_message, "something else");
            assert_eq!(info.constraint_name, None);
        }
        other => panic!("expected a database error, got {:?}", other),
    }
}

#[test]
fn error_information_accessors_expose_fields() {
    let info = DuckDbErrorInformation {
        error_message: String::from("boom"),
        table_name: Some(String::from("users")),
        column_name: None,
        constraint_name: Some(String::from("pk")),
        statement_position: None,
    };
    assert_eq!(info.message(), "boom");
    assert_eq!(info.details(), None);
    assert_eq!(info.hint(), None);
    assert_eq!(info.table_name(), Some("users"));
    assert_eq!(info.column_name(), None);
    assert_eq!(info.constraint_name(), Some("pk"));
    assert_eq!(info.statement_position(), None);
}
