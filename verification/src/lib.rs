//! Assembles one distributable shell script from an annotated source script.
//!
//! The source is ordinary shell code in which some comment lines are
//! directives: `# @include <path>` asks for another file to be spliced in,
//! `# @meta <key> <value>` declares build-time metadata. [`utils::argc::parser`]
//! turns the source into one event per line; [`commands::assembler`] walks the
//! events and produces the expanded script. [`laws`] states what holds of the
//! two together.
//!
//! Around that core stand the configuration of a project, with the places
//! it gives to what is built ([`config`]), and what the other commands
//! compute ([`commands`]). Nothing here reads or writes a file: callers hand
//! in what they have read and write out what they get.
pub mod utils;
pub mod commands;
pub mod config;
pub mod de;
pub mod validator;
pub mod laws;
