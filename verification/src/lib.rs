//! Verified core of a DuckDB adapter for a typed, backend-agnostic query
//! layer: scalar value codecs, positional bind collection, SQL text and
//! LIMIT/OFFSET clause assembly, row materialization, and translation of
//! engine failures into a structured error taxonomy.

pub mod bind_collector;
pub mod codec;
pub mod error;
pub mod limit_offset;
pub mod query_builder;
pub mod row;
pub mod scalar;
pub mod strutil;

pub use bind_collector::DuckDbBindCollector;
pub use error::DuckDbErrorInformation;
pub use query_builder::DuckDBQueryBuilder;
pub use row::DuckDbCursor;
pub use row::DuckDbField;
pub use row::DuckDbRow;
pub use scalar::ScalarValue;
