//! Tokens, the lexer and the concrete syntax tree.

pub mod token;
pub mod lex;
pub mod concrete;
