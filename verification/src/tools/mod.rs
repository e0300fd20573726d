//! Tools: the registry of what can be called, the forwarding of calls to
//! the child, and the tools that the proxy offers itself.

pub mod descriptor;
pub mod manager;
pub mod clear_log;
pub mod show_log;
