//! What the commands compute, apart from the files they read and write.
pub mod assembler;
pub mod completions;
pub mod config;
pub mod dist;
pub mod homebrew;
pub mod install_shell;
pub mod release;
