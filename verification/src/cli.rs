//! What the program is started with.

pub mod schema;
