pub mod errors;
pub mod keys;
pub mod laws;
pub mod registry;
