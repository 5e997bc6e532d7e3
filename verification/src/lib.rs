//! Titania: a verified ahead-of-time translator from a small structured
//! source language to a textual WebAssembly module.
//!
//! The pipeline has four stages, each a pure transformation: the scanner
//! turns source text into tokens, the parser builds a source abstract
//! syntax tree, the compiler resolves declarations against symbol tables
//! and produces a target (WAT) tree, and the emitter serializes that tree
//! to WebAssembly text format.

pub mod ast;
pub mod compiler;
pub mod emission;
pub mod error;
pub mod parser;
pub mod scanner;
pub mod table;
pub mod types;
pub mod wat;
