//! The bind-parameter collector: accumulates one statement's bound values
//! in positional order. The N-th value collected here answers the N-th
//! placeholder the text builder emitted for the same statement.

use vstd::prelude::*;

use crate::error::Error;
use crate::scalar::ScalarValue;

verus! {

/// Whether a caller-supplied conversion declared its result an explicit
/// null.
#[derive(Debug, Clone, Copy, PartialEq, Eq, Structural)]
pub enum IsNull {
    No,
    Yes,
}

/// Accumulates bound values in positional order. Its abstract value is
/// the sequence collected so far.
#[derive(Debug)]
pub struct DuckDbBindCollector {
    binds: Vec<ScalarValue>,
}

impl View for DuckDbBindCollector {
    type V = Seq<ScalarValue>;

    closed spec fn view(&self) -> Seq<ScalarValue> {
        self.binds@
    }
}

impl Default for DuckDbBindCollector {
    /// An empty collector.
    fn default() -> (r: Self)
        ensures
            r@ == Seq::<ScalarValue>::empty(),
    {
        DuckDbBindCollector { binds: Vec::new() }
    }
}

impl DuckDbBindCollector {
    /// An empty collector.
    pub fn new() -> (r: Self)
        ensures
            r@ == Seq::<ScalarValue>::empty(),
    {
        DuckDbBindCollector { binds: Vec::new() }
    }

    /// Take in the outcome of a caller-supplied conversion. An explicit
    /// null always overwrites whatever intermediate value the conversion
    /// built, so no stale value reaches the buffer; a failed conversion
    /// appends nothing and surfaces as a serialization error.
    pub fn push_bound_value(&mut self, conversion: Result<(ScalarValue, IsNull), String>) -> (r:
        Result<(), Error>)
        ensures
            match conversion {
                Ok((v, is_null)) => {
                    &&& r is Ok
                    &&& final(self)@ == old(self)@.push(
                        if is_null is Yes {
                            ScalarValue::Null
                        } else {
                            v
                        },
                    )
                },
                Err(m) => {
                    &&& r matches Err(Error::SerializationError(e)) && e@ == m@
                    &&& final(self)@ == old(self)@
                },
            },
    {
        match conversion {
            Ok((v, is_null)) => {
                let value = match is_null {
                    IsNull::No => v,
                    IsNull::Yes => ScalarValue::Null,
                };
                self.binds.push(value);
                Ok(())
            },
            Err(m) => Err(Error::SerializationError(m)),
        }
    }

    /// Append an explicit null directly, bypassing the category codecs,
    /// for statically-known-null contexts. Never fails.
    pub fn push_null_value(&mut self) -> (r: Result<(), Error>)
        ensures
            r is Ok,
            final(self)@ == old(self)@.push(ScalarValue::Null),
    {
        self.binds.push(ScalarValue::Null);
        Ok(())
    }

    /// Consume the collector into the positional, single-use parameter
    /// list for the statement it served.
    pub fn into_params(self) -> (r: Vec<ScalarValue>)
        ensures
            r@ == self@,
    {
        self.binds
    }
}

} // verus!
