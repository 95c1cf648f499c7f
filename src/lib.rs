//! Front end of the HNM language: a position-tracking lexer with recoverable
//! diagnostics, and the concrete syntax tree with its visitor traits.

pub mod diag;
pub mod strcached;
pub mod syntax;
