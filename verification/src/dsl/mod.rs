//! The grammar of the kernel, library and compiled-graph declarations that
//! mirtal's build-time macros accept, and the code they generate.

pub mod lexer;
pub mod words;
pub mod model;
pub mod grammar;
pub mod parser;
pub mod text;
pub mod expand;
pub mod compiled;
pub mod diagnose;
