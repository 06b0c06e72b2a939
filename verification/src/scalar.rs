//! The adapter's owned scalar representation: a closed tagged union used
//! both as bind payload and as decoded column payload.

use vstd::prelude::*;

verus! {

/// Granularity of a native time or timestamp payload.
#[derive(Debug, Clone, Copy, PartialEq, Eq, Structural)]
pub enum TimeUnitKind {
    Second,
    Millisecond,
    Microsecond,
    Nanosecond,
}

/// One scalar value crossing the adapter boundary, normalized to owned form.
///
/// The two float variants carry the IEEE 754 bit pattern of the payload, a
/// non-normalizing pass-through: the adapter never interprets those bits,
/// it only moves them between the engine and the caller.
#[derive(Debug)]
pub enum ScalarValue {
    Null,
    Boolean(bool),
    TinyInt(i8),
    SmallInt(i16),
    Int(i32),
    BigInt(i64),
    /// Bit pattern of a 32-bit IEEE 754 value.
    Float(u32),
    /// Bit pattern of a 64-bit IEEE 754 value.
    Double(u64),
    Text(String),
    Blob(Vec<u8>),
    /// Days since the Unix epoch.
    Date(i32),
    Time(TimeUnitKind, i64),
    Timestamp(TimeUnitKind, i64),
}

impl ScalarValue {
    /// True exactly when this is the explicit `Null` variant.
    pub fn is_null(&self) -> (r: bool)
        ensures
            r == (self is Null),
    {
        match self {
            ScalarValue::Null => true,
            _ => false,
        }
    }
}

} // verus!
