pub mod paths;
pub mod store;
