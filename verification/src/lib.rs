//! Binary codec between civil and absolute temporal values and the
//! fixed-width integers that PostgreSQL sends for `DATE`, `TIME`,
//! `TIMESTAMP` and `TIMESTAMPTZ` columns.
//!
//! Every wire integer counts days or microseconds from midnight of
//! January 1, 2000. Calendar arithmetic is done by `jiff`, the byte-level
//! framing by `postgres_protocol`; the arithmetic between the two is
//! verified here.

pub mod types;
pub mod arith;
pub mod wire;
pub mod date;
pub mod time;
pub mod datetime;
pub mod timestamp;
pub mod laws;

pub use crate::date::Date;
pub use crate::datetime::{base, DateTime};
pub use crate::time::Time;
pub use crate::timestamp::{base_ts, Timestamp, Y2K_EPOCH};
pub use crate::types::{ConversionError, IsNull, Type};
