//! The background worker: the requests the interface sends it, the reports it
//! sends back, and the decisions it makes between running commands.
pub mod message;
pub mod tasks;
