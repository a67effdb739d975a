//! Output values of the lexer: tokens, their kinds, and the error taxonomy.

use vstd::prelude::*;

verus! {

/// The kind a completed lexeme is classified into.
#[derive(Clone, Copy, Debug, PartialEq, Eq, Structural)]
pub enum TokenType {
    Identifier,
    Number,
    Real,
    Separator,
    Operator,
    Keyword,
}

/// A completed token: its kind and the exact text that produced it.
#[derive(Debug)]
pub struct Token {
    pub ty: TokenType,
    pub lex: String,
}

/// The mathematical value of a `Token`: its kind and its lexeme as a
/// sequence of characters.
pub ghost struct SpecToken {
    pub ty: TokenType,
    pub lex: Seq<char>,
}

impl View for Token {
    type V = SpecToken;

    open spec fn view(&self) -> SpecToken {
        SpecToken { ty: self.ty, lex: self.lex@ }
    }
}

/// Signals returned instead of a token. `Eof` is the clean end of input;
/// `IllegalDot` and `InvalidIdentifier` mark malformed input, after which the
/// remainder of the input is void; `InternalStateError` marks a state-machine
/// invariant violation and never occurs (see `lemma_internal_error_unreachable`).
#[derive(Clone, Copy, Debug, PartialEq, Eq, Structural)]
pub enum LexerError {
    IllegalDot,
    InternalStateError,
    InvalidIdentifier,
    Eof,
}

} // verus!
