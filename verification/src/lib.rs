//! A recipe catalog: an ordered collection of recipes with unique names, the
//! operations that read and change it, and the replies a service gives for them.

pub mod recipe;
pub mod store;
pub mod laws;
pub mod encoding;
pub mod handlers;
