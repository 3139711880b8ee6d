//! Periodic price fetching: the source table, the interpretation of HTTP
//! responses, the record-file format and the polling schedule.

pub mod clock;
pub mod json;
pub mod numbers;
pub mod record;
pub mod schedule;
pub mod source;
pub mod text;
pub mod words;
