//! A lexical scanner and a recursive-descent parser for a small arithmetic
//! expression language, with fix-it style diagnostics anchored to source spans.

pub mod text;
pub mod tokenizer;
pub mod expr;
pub mod diagnostics;
pub mod parser;
pub mod render;
