//! What a line of input asks for, and how a read command finds its file.

pub mod command;
pub mod parser;
pub mod search;
