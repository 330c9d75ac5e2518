pub mod model;
pub mod query;
pub mod render;
pub mod selector;
