pub mod command;
pub mod parser;
pub mod query;
