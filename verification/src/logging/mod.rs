//! The bounded, filterable log of requests, responses, errors and
//! diagnostic lines.

pub mod ansi;
pub mod entry;
pub mod filter;
pub mod storage;
