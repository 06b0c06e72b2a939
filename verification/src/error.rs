//! The error taxonomy and the translator that classifies every native
//! engine failure into it. Classification is a case-insensitive substring
//! heuristic over the engine's message text; table, column and constraint
//! names are recovered by locating literal markers and taking the token up
//! to the next delimiter, stripped of surrounding quotes.

use vstd::prelude::*;
use vstd::string::StrSliceExecFns;
use vstd::string::StringExecFns;

use crate::strutil::contains_ci;
use crate::strutil::contains_ci_str;
use crate::strutil::dec_digits;
use crate::strutil::find_str;
use crate::strutil::find_token_end;
use crate::strutil::first_occurrence;
use crate::strutil::first_token_end;
use crate::strutil::lemma_first_occurrence_some;
use crate::strutil::lemma_first_token_end_some;
use crate::strutil::push_dec_u64;
use crate::strutil::trim_quotes;
use crate::strutil::trimmed_token;

verus! {

/// The closed classification of an engine failure.
#[derive(Debug, Clone, Copy, PartialEq, Eq, Structural)]
pub enum DatabaseErrorKind {
    UniqueViolation,
    NotNullViolation,
    ForeignKeyViolation,
    CheckViolation,
    Unknown,
}

/// Structured detail carried with a classified engine failure.
#[derive(Debug)]
pub struct DuckDbErrorInformation {
    pub error_message: String,
    pub table_name: Option<String>,
    pub column_name: Option<String>,
    pub constraint_name: Option<String>,
    pub statement_position: Option<i32>,
}

impl DuckDbErrorInformation {
    /// The engine's message text.
    pub fn message(&self) -> (r: &str)
        ensures
            r@ == self.error_message@,
    {
        self.error_message.as_str()
    }

    /// No further detail is ever carried.
    pub fn details(&self) -> (r: Option<&str>)
        ensures
            r is None,
    {
        None
    }

    /// No hint is ever carried.
    pub fn hint(&self) -> (r: Option<&str>)
        ensures
            r is None,
    {
        None
    }

    /// The table named by the message, where one was recovered.
    pub fn table_name(&self) -> (r: Option<&str>)
        ensures
            r is Some <==> self.table_name is Some,
            r matches Some(s) ==> self.table_name matches Some(t) && s@ == t@,
    {
        match &self.table_name {
            Some(s) => Some(s.as_str()),
            None => None,
        }
    }

    /// The column named by the message, where one was recovered.
    pub fn column_name(&self) -> (r: Option<&str>)
        ensures
            r is Some <==> self.column_name is Some,
            r matches Some(s) ==> self.column_name matches Some(t) && s@ == t@,
    {
        match &self.column_name {
            Some(s) => Some(s.as_str()),
            None => None,
        }
    }

    /// The constraint named by the message, where one was recovered.
    pub fn constraint_name(&self) -> (r: Option<&str>)
        ensures
            r is Some <==> self.constraint_name is Some,
            r matches Some(s) ==> self.constraint_name matches Some(t) && s@ == t@,
    {
        match &self.constraint_name {
            Some(s) => Some(s.as_str()),
            None => None,
        }
    }

    /// The statement position, where the engine reported one.
    pub fn statement_position(&self) -> (r: Option<i32>)
        ensures
            r == self.statement_position,
    {
        self.statement_position
    }
}

/// One failure surfaced by this adapter.
#[derive(Debug)]
pub enum Error {
    /// An engine failure, classified.
    DatabaseError(DatabaseErrorKind, DuckDbErrorInformation),
    /// A bind-time conversion failure.
    SerializationError(String),
    /// A decode-time conversion or shape failure.
    DeserializationError(String),
}

/// The native error channel, decomposed into plain values. Each variant
/// mirrors one failure shape of the engine's own error type; displayable
/// payloads arrive already rendered to text.
#[derive(Debug)]
pub enum NativeError {
    /// An engine-level failure: its message, if any, and the rendering of
    /// its error code.
    EngineFailure { message: Option<String>, code_text: String },
    InvalidColumnIndex(usize),
    InvalidColumnName(String),
    InvalidColumnType { index: usize, name: String, column_type: String },
    InvalidParameterCount(usize, usize),
    StatementChangedRows(usize),
    InvalidPath(String),
    ToSqlConversionFailure(String),
    FromSqlConversionFailure { index: usize, name: String, detail: String },
    Utf8Error(String),
    NulError(String),
    Other(String),
}

/// The kind the message heuristic assigns: "unique" or "duplicate" mean a
/// unique violation, then "not null", "foreign key" and "check constraint"
/// in that order of precedence, and anything else is unknown.
pub open spec fn classified_kind(msg: Seq<char>) -> DatabaseErrorKind {
    if contains_ci(msg, "unique"@) || contains_ci(msg, "duplicate"@) {
        DatabaseErrorKind::UniqueViolation
    } else if contains_ci(msg, "not null"@) {
        DatabaseErrorKind::NotNullViolation
    } else if contains_ci(msg, "foreign key"@) {
        DatabaseErrorKind::ForeignKeyViolation
    } else if contains_ci(msg, "check constraint"@) {
        DatabaseErrorKind::CheckViolation
    } else {
        DatabaseErrorKind::Unknown
    }
}

/// Classify an engine message by its text alone.
pub fn classify_error_message(message: &str) -> (k: DatabaseErrorKind)
    ensures
        k == classified_kind(message@),
{
    if contains_ci_str(message, "unique") || contains_ci_str(message, "duplicate") {
        DatabaseErrorKind::UniqueViolation
    } else if contains_ci_str(message, "not null") {
        DatabaseErrorKind::NotNullViolation
    } else if contains_ci_str(message, "foreign key") {
        DatabaseErrorKind::ForeignKeyViolation
    } else if contains_ci_str(message, "check constraint") {
        DatabaseErrorKind::CheckViolation
    } else {
        DatabaseErrorKind::Unknown
    }
}

/// A failure whose message names a unique or duplicate key is classified
/// as a unique violation, whatever else the message holds. That the
/// engine words a duplicate-key rejection this way is the engine's own
/// behavior; from the message on, the classification is fixed.
pub proof fn lemma_unique_message_classified(msg: Seq<char>)
    requires
        contains_ci(msg, "unique"@) || contains_ci(msg, "duplicate"@),
    ensures
        classified_kind(msg) == DatabaseErrorKind::UniqueViolation,
{
}

/// A failure whose message names a violated not-null constraint, and no
/// unique or duplicate key, is classified as a not-null violation. That
/// the engine words such a rejection this way is the engine's own
/// behavior; from the message on, the classification is fixed.
pub proof fn lemma_not_null_message_classified(msg: Seq<char>)
    requires
        contains_ci(msg, "not null"@),
        !contains_ci(msg, "unique"@),
        !contains_ci(msg, "duplicate"@),
    ensures
        classified_kind(msg) == DatabaseErrorKind::NotNullViolation,
{
}

/// The token that follows the first occurrence of `marker`, cut at the
/// first white-space, quote or period after it, with surrounding quotes
/// stripped. Nothing when the marker is absent, and nothing when the token
/// runs unterminated to the end of the message: without a terminator no
/// token is recovered.
pub open spec fn extract_named_token(msg: Seq<char>, marker: Seq<char>) -> Option<Seq<char>> {
    match first_occurrence(msg, marker, 0) {
        Some(i) => match first_token_end(msg, i + marker.len()) {
            Some(e) => Some(trim_quotes(msg.subrange(i + marker.len(), e))),
            None => None,
        },
        None => None,
    }
}

/// Scan `message` for `marker` and recover the name token after it.
fn extract_after_marker(message: &str, marker: &str) -> (r: Option<String>)
    ensures
        match r {
            Some(t) => extract_named_token(message@, marker@) == Some(t@),
            None => extract_named_token(message@, marker@) is None,
        },
{
    let ml = marker.unicode_len();
    let hl = message.unicode_len();
    match find_str(message, marker) {
        Some(i) => {
            proof {
                lemma_first_occurrence_some(message@, marker@, 0, i as int);
            }
            assert(i + ml <= hl);
            match find_token_end(message, i + ml) {
                Some(e) => {
                    proof {
                        lemma_first_token_end_some(message@, (i + ml) as int, e as int);
                    }
                    Some(trimmed_token(message, i + ml, e))
                },
                None => None,
            }
        },
        None => None,
    }
}

/// Extract the table name from an engine message, by the marker `table `.
pub fn extract_table_name(message: &str) -> (r: Option<String>)
    ensures
        match r {
            Some(t) => extract_named_token(message@, "table "@) == Some(t@),
            None => extract_named_token(message@, "table "@) is None,
        },
{
    extract_after_marker(message, "table ")
}

/// Extract the column name from an engine message, by the marker `column `.
pub fn extract_column_name(message: &str) -> (r: Option<String>)
    ensures
        match r {
            Some(t) => extract_named_token(message@, "column "@) == Some(t@),
            None => extract_named_token(message@, "column "@) is None,
        },
{
    extract_after_marker(message, "column ")
}

/// Extract the constraint name from an engine message, by the marker
/// `constraint `.
pub fn extract_constraint_name(message: &str) -> (r: Option<String>)
    ensures
        match r {
            Some(t) => extract_named_token(message@, "constraint "@) == Some(t@),
            None => extract_named_token(message@, "constraint "@) is None,
        },
{
    extract_after_marker(message, "constraint ")
}

/// The message an engine failure surfaces: the engine's own text, or a
/// rendering of its bare error code where it carried none.
pub open spec fn engine_failure_message(message: Option<String>, code_text: Seq<char>) -> Seq<
    char,
> {
    match message {
        Some(m) => m@,
        None => "DuckDB error code: "@ + code_text,
    }
}

/// Recovered-name options agree: both absent, or equal text.
pub open spec fn name_opt_is(o: Option<String>, t: Option<Seq<char>>) -> bool {
    match o {
        Some(s) => t == Some(s@),
        None => t is None,
    }
}

/// `info` is exactly the structured detail the translator derives from the
/// engine message `m`: the message itself, the three recovered names, and
/// no position.
pub open spec fn info_for_message(info: DuckDbErrorInformation, m: Seq<char>) -> bool {
    &&& info.error_message@ == m
    &&& name_opt_is(info.table_name, extract_named_token(m, "table "@))
    &&& name_opt_is(info.column_name, extract_named_token(m, "column "@))
    &&& name_opt_is(info.constraint_name, extract_named_token(m, "constraint "@))
    &&& info.statement_position is None
}

/// `info` carries the message `m` and nothing else.
pub open spec fn bare_info(info: DuckDbErrorInformation, m: Seq<char>) -> bool {
    &&& info.error_message@ == m
    &&& info.table_name is None
    &&& info.column_name is None
    &&& info.constraint_name is None
    &&& info.statement_position is None
}

/// The exact translation relation: `r` is what the adapter surfaces for
/// the native failure `e`. Every native variant maps to exactly one shape;
/// none is dropped.
pub open spec fn translates_to(e: NativeError, r: Error) -> bool {
    match e {
        NativeError::EngineFailure { message, code_text } => {
            let m = engine_failure_message(message, code_text@);
            &&& r matches Error::DatabaseError(kind, info)
            &&& kind == classified_kind(m)
            &&& info_for_message(info, m)
        },
        NativeError::InvalidColumnIndex(i) => {
            &&& r matches Error::DeserializationError(m)
            &&& m@ == "Invalid column index: "@ + dec_digits(i as nat)
        },
        NativeError::InvalidColumnName(n) => {
            &&& r matches Error::DeserializationError(m)
            &&& m@ == "Invalid column name: "@ + n@
        },
        NativeError::InvalidColumnType { index, name, column_type } => {
            &&& r matches Error::DeserializationError(m)
            &&& m@ == "Invalid column type at index "@ + dec_digits(index as nat) + ", name '"@
                + name@ + "': "@ + column_type@
        },
        NativeError::InvalidParameterCount(expected, actual) => {
            &&& r matches Error::DatabaseError(kind, info)
            &&& kind == DatabaseErrorKind::Unknown
            &&& bare_info(
                info,
                "Invalid parameter count: expected "@ + dec_digits(expected as nat) + ", got "@
                    + dec_digits(actual as nat),
            )
        },
        NativeError::StatementChangedRows(c) => {
            &&& r matches Error::DeserializationError(m)
            &&& m@ == "Unexpected number of changed rows: "@ + dec_digits(c as nat)
        },
        NativeError::InvalidPath(p) => {
            &&& r matches Error::DeserializationError(m)
            &&& m@ == "Invalid path: "@ + p@
        },
        NativeError::ToSqlConversionFailure(d) => {
            &&& r matches Error::SerializationError(m)
            &&& m@ == d@
        },
        NativeError::FromSqlConversionFailure { index, name, detail } => {
            &&& r matches Error::DeserializationError(m)
            &&& m@ == "Conversion failure at column "@ + dec_digits(index as nat) + " ('"@ + name@
                + "'): "@ + detail@
        },
        NativeError::Utf8Error(d) => {
            &&& r matches Error::DeserializationError(m)
            &&& m@ == "UTF-8 conversion error: "@ + d@
        },
        NativeError::NulError(d) => {
            &&& r matches Error::DeserializationError(m)
            &&& m@ == "Null byte in string: "@ + d@
        },
        NativeError::Other(d) => {
            &&& r matches Error::DatabaseError(kind, info)
            &&& kind == DatabaseErrorKind::Unknown
            &&& bare_info(info, d@)
        },
    }
}

/// Build the structured detail for an engine failure message.
fn build_error_information(msg: String) -> (info: DuckDbErrorInformation)
    ensures
        info_for_message(info, msg@),
{
    let table_name = extract_table_name(msg.as_str());
    let column_name = extract_column_name(msg.as_str());
    let constraint_name = extract_constraint_name(msg.as_str());
    DuckDbErrorInformation {
        error_message: msg,
        table_name,
        column_name,
        constraint_name,
        statement_position: None,
    }
}

/// Translate one decomposed native failure into the adapter's taxonomy.
/// Every variant is mapped; none is dropped silently.
pub fn translate_native_error(e: NativeError) -> (r: Error)
    ensures
        translates_to(e, r),
{
    match e {
        NativeError::EngineFailure { message, code_text } => {
            let msg: String = match message {
                Some(m) => m,
                None => {
                    let mut s = String::new();
                    proof {
                        reveal_strlit("DuckDB error code: ");
                    }
                    s.append("DuckDB error code: ");
                    s.append(code_text.as_str());
                    s
                },
            };
            let kind = classify_error_message(msg.as_str());
            let info = build_error_information(msg);
            Error::DatabaseError(kind, info)
        },
        NativeError::InvalidColumnIndex(i) => {
            let mut s = String::new();
            proof {
                reveal_strlit("Invalid column index: ");
            }
            s.append("Invalid column index: ");
            push_dec_u64(&mut s, i as u64);
            Error::DeserializationError(s)
        },
        NativeError::InvalidColumnName(n) => {
            let mut s = String::new();
            proof {
                reveal_strlit("Invalid column name: ");
            }
            s.append("Invalid column name: ");
            s.append(n.as_str());
            Error::DeserializationError(s)
        },
        NativeError::InvalidColumnType { index, name, column_type } => {
            let mut s = String::new();
            proof {
                reveal_strlit("Invalid column type at index ");
                reveal_strlit(", name '");
                reveal_strlit("': ");
            }
            s.append("Invalid column type at index ");
            push_dec_u64(&mut s, index as u64);
            s.append(", name '");
            s.append(name.as_str());
            s.append("': ");
            s.append(column_type.as_str());
            proof {
                assert(s@ =~= "Invalid column type at index "@ + dec_digits(index as nat)
                    + ", name '"@ + name@ + "': "@ + column_type@);
            }
            Error::DeserializationError(s)
        },
        NativeError::InvalidParameterCount(expected, actual) => {
            let mut s = String::new();
            proof {
                reveal_strlit("Invalid parameter count: expected ");
                reveal_strlit(", got ");
            }
            s.append("Invalid parameter count: expected ");
            push_dec_u64(&mut s, expected as u64);
            s.append(", got ");
            push_dec_u64(&mut s, actual as u64);
            proof {
                assert(s@ =~= "Invalid parameter count: expected "@ + dec_digits(expected as nat)
                    + ", got "@ + dec_digits(actual as nat));
            }
            let info = DuckDbErrorInformation {
                error_message: s,
                table_name: None,
                column_name: None,
                constraint_name: None,
                statement_position: None,
            };
            Error::DatabaseError(DatabaseErrorKind::Unknown, info)
        },
        NativeError::StatementChangedRows(c) => {
            let mut s = String::new();
            proof {
                reveal_strlit("Unexpected number of changed rows: ");
            }
            s.append("Unexpected number of changed rows: ");
            push_dec_u64(&mut s, c as u64);
            Error::DeserializationError(s)
        },
        NativeError::InvalidPath(p) => {
            let mut s = String::new();
            proof {
                reveal_strlit("Invalid path: ");
            }
            s.append("Invalid path: ");
            s.append(p.as_str());
            Error::DeserializationError(s)
        },
        NativeError::ToSqlConversionFailure(d) => Error::SerializationError(d),
        NativeError::FromSqlConversionFailure { index, name, detail } => {
            let mut s = String::new();
            proof {
                reveal_strlit("Conversion failure at column ");
                reveal_strlit(" ('");
                reveal_strlit("'): ");
            }
            s.append("Conversion failure at column ");
            push_dec_u64(&mut s, index as u64);
            s.append(" ('");
            s.append(name.as_str());
            s.append("'): ");
            s.append(detail.as_str());
            proof {
                assert(s@ =~= "Conversion failure at column "@ + dec_digits(index as nat) + " ('"@
                    + name@ + "'): "@ + detail@);
            }
            Error::DeserializationError(s)
        },
        NativeError::Utf8Error(d) => {
            let mut s = String::new();
            proof {
                reveal_strlit("UTF-8 conversion error: ");
            }
            s.append("UTF-8 conversion error: ");
            s.append(d.as_str());
            Error::DeserializationError(s)
        },
        NativeError::NulError(d) => {
            let mut s = String::new();
            proof {
                reveal_strlit("Null byte in string: ");
            }
            s.append("Null byte in string: ");
            s.append(d.as_str());
            Error::DeserializationError(s)
        },
        NativeError::Other(d) => {
            let info = DuckDbErrorInformation {
                error_message: d,
                table_name: None,
                column_name: None,
                constraint_name: None,
                statement_position: None,
            };
            Error::DatabaseError(DatabaseErrorKind::Unknown, info)
        },
    }
}

} // verus!
