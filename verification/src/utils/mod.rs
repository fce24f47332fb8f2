//! Text handling shared by the tokenizer and the assembler, and paths.
pub mod argc;
pub mod formatter;
pub mod hashlib;
pub mod path;
pub mod text;
pub mod vcs;
