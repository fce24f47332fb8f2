//! The directive comments of a source script: their vocabulary and their tokenizer.
pub mod parser;
pub mod tag;
