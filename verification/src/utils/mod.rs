pub mod clock;
pub mod order;
pub mod path;
pub mod scan;
pub mod text;
pub mod unique;
pub mod validate;
