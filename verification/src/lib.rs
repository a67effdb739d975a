//! A small finite-state lexer: it turns a character stream into classified
//! tokens (identifiers, numbers, reals, separators, operators, keywords),
//! one token per call, reporting malformed input precisely.

pub mod cursor;
pub mod scan;
pub mod token;
