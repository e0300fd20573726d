//! Process supervision: lifecycle decisions and the file-watch restarter.

pub mod file_watcher;
pub mod wrappee_state;
pub mod wrap_server;
