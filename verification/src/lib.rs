//! Command interpretation for an interactive chat prompt.
//!
//! A line typed at the prompt is one of four commands: leave the session,
//! save the last reply, read a file into the next question, or a question for
//! the model. This crate classifies lines, resolves a read command to the one
//! file it names, and decides what the session does next.

pub mod cli;
pub mod prompt;
pub mod session;
pub mod text;
