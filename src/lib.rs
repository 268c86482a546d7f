//! Directory listing records: entry classification, version-control status
//! mapping, record encodings, an ordered bounded scheduler and a streaming
//! writer with a flush-then-abort failure policy.
pub mod status;
pub mod timestamp;
pub mod entry;
pub mod encode;
pub mod stream;
pub mod schedule;
pub mod run;
