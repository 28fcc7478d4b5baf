//! AEx: an assembler-like language toolkit for embedded targets.

pub mod assembly;
pub mod ast;
pub mod codegen;
pub mod types;
pub mod util;
pub mod value;
pub mod source;
pub mod mem;
pub mod operator;
pub mod parser;
pub mod pos;
pub mod ptr;
pub mod scope;
pub mod targets;
pub mod token;
