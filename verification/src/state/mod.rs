pub mod condition;
pub mod pocket;
pub mod registry;
