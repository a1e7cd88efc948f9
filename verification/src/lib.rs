//! A Z80 assembler: tokenizer, parser, instruction encoder, macro engine and
//! a two-pass compiler driver with label fix-up.

pub mod compiler;
pub mod devkit;
pub mod domain;
pub mod laws;
pub mod parser;
pub mod strutil;

pub use crate::compiler::source_provider::{InMemorySourceProvider, SourceHeader, SourceProvider};
pub use crate::compiler::Compiler;
