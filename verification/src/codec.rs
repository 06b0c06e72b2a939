//! Bidirectional conversion between the abstract scalar categories and the
//! adapter's native scalar representation. One codec per category keeps
//! the conversions total for correctly-typed data; a decode against the
//! wrong category is the only failure.

use vstd::prelude::*;
use vstd::string::StringExecFns;

use crate::error::Error;
use crate::scalar::ScalarValue;
use crate::scalar::TimeUnitKind;

verus! {

/// The abstract scalar categories registered with the adapter.
#[derive(Debug, Clone, Copy, PartialEq, Eq, Structural)]
pub enum Category {
    Bool,
    TinyInt,
    SmallInt,
    Integer,
    BigInt,
    Float,
    Double,
    Text,
    Binary,
    Date,
    Time,
    Timestamp,
}

/// A scalar as the typed query layer sees it: one payload per category.
/// Float payloads are IEEE 754 bit patterns, carried without
/// interpretation.
#[derive(Debug)]
pub enum TypedValue {
    Bool(bool),
    TinyInt(i8),
    SmallInt(i16),
    Integer(i32),
    BigInt(i64),
    Float(u32),
    Double(u64),
    Text(String),
    Binary(Vec<u8>),
    Date(i32),
    Time(TimeUnitKind, i64),
    Timestamp(TimeUnitKind, i64),
}

/// The category a typed value belongs to.
pub open spec fn category_of(v: TypedValue) -> Category {
    match v {
        TypedValue::Bool(_) => Category::Bool,
        TypedValue::TinyInt(_) => Category::TinyInt,
        TypedValue::SmallInt(_) => Category::SmallInt,
        TypedValue::Integer(_) => Category::Integer,
        TypedValue::BigInt(_) => Category::BigInt,
        TypedValue::Float(_) => Category::Float,
        TypedValue::Double(_) => Category::Double,
        TypedValue::Text(_) => Category::Text,
        TypedValue::Binary(_) => Category::Binary,
        TypedValue::Date(_) => Category::Date,
        TypedValue::Time(_, _) => Category::Time,
        TypedValue::Timestamp(_, _) => Category::Timestamp,
    }
}

/// What serialization produces: the native variant of the same width and
/// tag, with the payload unchanged.
pub open spec fn spec_serialize(v: TypedValue) -> ScalarValue {
    match v {
        TypedValue::Bool(b) => ScalarValue::Boolean(b),
        TypedValue::TinyInt(i) => ScalarValue::TinyInt(i),
        TypedValue::SmallInt(i) => ScalarValue::SmallInt(i),
        TypedValue::Integer(i) => ScalarValue::Int(i),
        TypedValue::BigInt(i) => ScalarValue::BigInt(i),
        TypedValue::Float(bits) => ScalarValue::Float(bits),
        TypedValue::Double(bits) => ScalarValue::Double(bits),
        TypedValue::Text(s) => ScalarValue::Text(s),
        TypedValue::Binary(b) => ScalarValue::Blob(b),
        TypedValue::Date(d) => ScalarValue::Date(d),
        TypedValue::Time(u, t) => ScalarValue::Time(u, t),
        TypedValue::Timestamp(u, t) => ScalarValue::Timestamp(u, t),
    }
}

/// What decoding produces: the payload back, exactly when the native tag
/// matches the requested category; nothing on any mismatch, the explicit
/// null included.
pub open spec fn spec_deserialize(v: ScalarValue, c: Category) -> Option<TypedValue> {
    match (c, v) {
        (Category::Bool, ScalarValue::Boolean(b)) => Some(TypedValue::Bool(b)),
        (Category::TinyInt, ScalarValue::TinyInt(i)) => Some(TypedValue::TinyInt(i)),
        (Category::SmallInt, ScalarValue::SmallInt(i)) => Some(TypedValue::SmallInt(i)),
        (Category::Integer, ScalarValue::Int(i)) => Some(TypedValue::Integer(i)),
        (Category::BigInt, ScalarValue::BigInt(i)) => Some(TypedValue::BigInt(i)),
        (Category::Float, ScalarValue::Float(bits)) => Some(TypedValue::Float(bits)),
        (Category::Double, ScalarValue::Double(bits)) => Some(TypedValue::Double(bits)),
        (Category::Text, ScalarValue::Text(s)) => Some(TypedValue::Text(s)),
        (Category::Binary, ScalarValue::Blob(b)) => Some(TypedValue::Binary(b)),
        (Category::Date, ScalarValue::Date(d)) => Some(TypedValue::Date(d)),
        (Category::Time, ScalarValue::Time(u, t)) => Some(TypedValue::Time(u, t)),
        (Category::Timestamp, ScalarValue::Timestamp(u, t)) => Some(TypedValue::Timestamp(u, t)),
        _ => None,
    }
}

/// Serialize one typed value into the native representation. Total for
/// every registered category; exact widths are preserved, nothing widens
/// or truncates.
pub fn serialize(v: TypedValue) -> (r: ScalarValue)
    ensures
        r == spec_serialize(v),
{
    match v {
        TypedValue::Bool(b) => ScalarValue::Boolean(b),
        TypedValue::TinyInt(i) => ScalarValue::TinyInt(i),
        TypedValue::SmallInt(i) => ScalarValue::SmallInt(i),
        TypedValue::Integer(i) => ScalarValue::Int(i),
        TypedValue::BigInt(i) => ScalarValue::BigInt(i),
        TypedValue::Float(bits) => ScalarValue::Float(bits),
        TypedValue::Double(bits) => ScalarValue::Double(bits),
        TypedValue::Text(s) => ScalarValue::Text(s),
        TypedValue::Binary(b) => ScalarValue::Blob(b),
        TypedValue::Date(d) => ScalarValue::Date(d),
        TypedValue::Time(u, t) => ScalarValue::Time(u, t),
        TypedValue::Timestamp(u, t) => ScalarValue::Timestamp(u, t),
    }
}

/// Decode one native value against a requested category. Fails exactly
/// when the native tag does not match the category.
pub fn deserialize(v: ScalarValue, c: Category) -> (r: Result<TypedValue, Error>)
    ensures
        match r {
            Ok(t) => spec_deserialize(v, c) == Some(t),
            Err(e) => {
                &&& spec_deserialize(v, c) is None
                &&& e matches Error::DeserializationError(m)
                &&& m@ == "native value does not match the requested category"@
            },
        },
{
    let out = match (c, v) {
        (Category::Bool, ScalarValue::Boolean(b)) => Some(TypedValue::Bool(b)),
        (Category::TinyInt, ScalarValue::TinyInt(i)) => Some(TypedValue::TinyInt(i)),
        (Category::SmallInt, ScalarValue::SmallInt(i)) => Some(TypedValue::SmallInt(i)),
        (Category::Integer, ScalarValue::Int(i)) => Some(TypedValue::Integer(i)),
        (Category::BigInt, ScalarValue::BigInt(i)) => Some(TypedValue::BigInt(i)),
        (Category::Float, ScalarValue::Float(bits)) => Some(TypedValue::Float(bits)),
        (Category::Double, ScalarValue::Double(bits)) => Some(TypedValue::Double(bits)),
        (Category::Text, ScalarValue::Text(s)) => Some(TypedValue::Text(s)),
        (Category::Binary, ScalarValue::Blob(b)) => Some(TypedValue::Binary(b)),
        (Category::Date, ScalarValue::Date(d)) => Some(TypedValue::Date(d)),
        (Category::Time, ScalarValue::Time(u, t)) => Some(TypedValue::Time(u, t)),
        (Category::Timestamp, ScalarValue::Timestamp(u, t)) => Some(TypedValue::Timestamp(u, t)),
        _ => None,
    };
    match out {
        Some(t) => Ok(t),
        None => Err(
            Error::DeserializationError(
                String::from_str("native value does not match the requested category"),
            ),
        ),
    }
}

/// Round-trip: for every category and value, decoding what serialization
/// produced, against the value's own category, gives the value back.
/// Float payloads pass through as uninterpreted bit patterns, so the law
/// covers them without normalization.
pub proof fn lemma_serialize_round_trip(v: TypedValue)
    ensures
        spec_deserialize(spec_serialize(v), category_of(v)) == Some(v),
{
}

} // verus!
