//! A supervising proxy for one child tool server: the bounded log store,
//! the tool registry and call classification, the process supervisor and
//! the debounced file-watch restarter, with their contracts.

pub mod cli;
pub mod clock;
pub mod config;
pub mod json;
pub mod logging;
pub mod pattern;
pub mod server;
pub mod text;
pub mod tools;
pub mod types;
pub mod wrappee;
