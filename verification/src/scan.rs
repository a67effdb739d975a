//! The state machine itself: the mathematical model of one token scan, the
//! executable scanner proved against it, and the laws that hold of every scan.

use crate::cursor::Cursor;
use crate::token::{LexerError, SpecToken, Token, TokenType};
use vstd::prelude::*;

verus! {

/// The accumulation phase of an in-progress scan. It only ever advances
/// forward: `Start` to `DefiningIdentifier` or `DefiningInteger`, and
/// `DefiningReal` is reachable only from `DefiningInteger`.
#[derive(Clone, Copy, Debug, PartialEq, Eq, Structural)]
pub enum States {
    Start,
    DefiningIdentifier,
    DefiningInteger,
    DefiningReal,
}

/// Whitespace: consumed unconditionally, skipped before a token, and a
/// terminator of any accumulating lexeme.
pub open spec fn is_whitespace_char(c: char) -> bool {
    c == ' ' || c == '\t' || c == '\r' || c == '\n'
}

/// The separator class: each is a one-character token of its own.
pub open spec fn is_separator_char(c: char) -> bool {
    c == '(' || c == ')' || c == ';'
}

/// The operator class: each is a one-character token of its own.
pub open spec fn is_operator_char(c: char) -> bool {
    c == '<' || c == '>' || c == '='
}

/// The decimal digits.
pub open spec fn is_digit_char(c: char) -> bool {
    c == '0' || c == '1' || c == '2' || c == '3' || c == '4' || c == '5' || c == '6' || c == '7'
        || c == '8' || c == '9'
}

/// The keyword table: an exact-text lookup consulted only when an
/// identifier-phase lexeme is finalized.
pub open spec fn spec_keyword_kind(lexeme: Seq<char>) -> TokenType {
    if lexeme == "while"@ {
        TokenType::Keyword
    } else {
        TokenType::Identifier
    }
}

/// Finalization: classify an accumulated lexeme by the phase it was
/// accumulated in. Reaching finalization still in `Start` is a state-machine
/// bug, reported as `InternalStateError`.
pub open spec fn spec_basic(st: States, lexeme: Seq<char>) -> Result<SpecToken, LexerError> {
    match st {
        States::Start => Err(LexerError::InternalStateError),
        States::DefiningIdentifier => Ok(
            SpecToken { ty: spec_keyword_kind(lexeme), lex: lexeme },
        ),
        States::DefiningInteger => Ok(SpecToken { ty: TokenType::Number, lex: lexeme }),
        States::DefiningReal => Ok(SpecToken { ty: TokenType::Real, lex: lexeme }),
    }
}

/// What one scan yields: the token or error, and the characters left
/// unconsumed after it.
pub ghost struct ScanOutcome {
    pub result: Result<SpecToken, LexerError>,
    pub remaining: Seq<char>,
}

/// One step-by-step scan from phase `st` with `lexeme` accumulated so far,
/// over the pending characters `input`. This is the state machine: each
/// recursive call consumes exactly one character.
pub open spec fn spec_scan(input: Seq<char>, st: States, lexeme: Seq<char>) -> ScanOutcome
    decreases input.len(),
{
    if input.len() == 0 {
        match st {
            States::Start => ScanOutcome { result: Err(LexerError::Eof), remaining: input },
            _ => ScanOutcome { result: spec_basic(st, lexeme), remaining: input },
        }
    } else {
        let c = input[0];
        if is_whitespace_char(c) {
            match st {
                States::Start => spec_scan(input.skip(1), st, lexeme),
                _ => ScanOutcome { result: spec_basic(st, lexeme), remaining: input.skip(1) },
            }
        } else if c == '.' {
            match st {
                States::DefiningInteger => spec_scan(
                    input.skip(1),
                    States::DefiningReal,
                    lexeme.push(c),
                ),
                _ => ScanOutcome { result: Err(LexerError::IllegalDot), remaining: input },
            }
        } else if is_separator_char(c) {
            match st {
                States::Start => ScanOutcome {
                    result: Ok(SpecToken { ty: TokenType::Separator, lex: seq![c] }),
                    remaining: input.skip(1),
                },
                _ => ScanOutcome { result: spec_basic(st, lexeme), remaining: input },
            }
        } else if is_operator_char(c) {
            match st {
                States::Start => ScanOutcome {
                    result: Ok(SpecToken { ty: TokenType::Operator, lex: seq![c] }),
                    remaining: input.skip(1),
                },
                _ => ScanOutcome { result: spec_basic(st, lexeme), remaining: input },
            }
        } else if is_digit_char(c) {
            spec_scan(
                input.skip(1),
                if st is Start {
                    States::DefiningInteger
                } else {
                    st
                },
                lexeme.push(c),
            )
        } else {
            match st {
                States::Start => spec_scan(input.skip(1), States::DefiningIdentifier, lexeme.push(c)),
                States::DefiningIdentifier => spec_scan(input.skip(1), st, lexeme.push(c)),
                _ => ScanOutcome {
                    result: Err(LexerError::InvalidIdentifier),
                    remaining: input.skip(1),
                },
            }
        }
    }
}

/// How an executable result corresponds to a modeled one: same error, or a
/// token whose kind and lexeme are the modeled ones.
pub open spec fn result_matches(
    r: Result<Token, LexerError>,
    s: Result<SpecToken, LexerError>,
) -> bool {
    match (r, s) {
        (Ok(t), Ok(m)) => t@ == m,
        (Err(e), Err(f)) => e == f,
        _ => false,
    }
}

/// Law: an input containing only whitespace yields `Eof` with no token
/// emitted, and every character of it is consumed.
pub proof fn lemma_whitespace_scans_to_eof(input: Seq<char>)
    requires
        forall|i: int| 0 <= i < input.len() ==> is_whitespace_char(#[trigger] input[i]),
    ensures
        spec_scan(input, States::Start, Seq::empty()).result == Err::<SpecToken, LexerError>(
            LexerError::Eof,
        ),
        spec_scan(input, States::Start, Seq::empty()).remaining.len() == 0,
    decreases input.len(),
{
    if input.len() > 0 {
        assert(forall|i: int|
            0 <= i < input.skip(1).len() ==> is_whitespace_char(#[trigger] input.skip(1)[i]));
        lemma_whitespace_scans_to_eof(input.skip(1));
    }
}

/// Law: the state machine never reports `InternalStateError`, from any phase
/// and any accumulated lexeme: finalization is never reached in `Start`.
pub proof fn lemma_internal_error_unreachable(input: Seq<char>, st: States, lexeme: Seq<char>)
    ensures
        spec_scan(input, st, lexeme).result != Err::<SpecToken, LexerError>(
            LexerError::InternalStateError,
        ),
    decreases input.len(),
{
    if input.len() > 0 {
        let c = input[0];
        if is_whitespace_char(c) && st is Start {
            lemma_internal_error_unreachable(input.skip(1), st, lexeme);
        } else if c == '.' && st is DefiningInteger {
            lemma_internal_error_unreachable(input.skip(1), States::DefiningReal, lexeme.push(c));
        } else if !is_whitespace_char(c) && c != '.' && !is_separator_char(c)
            && !is_operator_char(c) {
            if is_digit_char(c) {
                lemma_internal_error_unreachable(
                    input.skip(1),
                    if st is Start {
                        States::DefiningInteger
                    } else {
                        st
                    },
                    lexeme.push(c),
                );
            } else if st is Start {
                lemma_internal_error_unreachable(
                    input.skip(1),
                    States::DefiningIdentifier,
                    lexeme.push(c),
                );
            } else if st is DefiningIdentifier {
                lemma_internal_error_unreachable(input.skip(1), st, lexeme.push(c));
            }
        }
    }
}

/// Law: every token the machine emits has a non-empty lexeme, provided any
/// lexeme already accumulated outside `Start` is non-empty (a scan begun at
/// `Start` satisfies this trivially).
pub proof fn lemma_token_lexeme_nonempty(input: Seq<char>, st: States, lexeme: Seq<char>)
    requires
        !(st is Start) ==> lexeme.len() > 0,
    ensures
        spec_scan(input, st, lexeme).result matches Ok(t) ==> t.lex.len() > 0,
    decreases input.len(),
{
    if input.len() > 0 {
        let c = input[0];
        if is_whitespace_char(c) && st is Start {
            lemma_token_lexeme_nonempty(input.skip(1), st, lexeme);
        } else if c == '.' && st is DefiningInteger {
            lemma_token_lexeme_nonempty(input.skip(1), States::DefiningReal, lexeme.push(c));
        } else if !is_whitespace_char(c) && c != '.' && !is_separator_char(c)
            && !is_operator_char(c) {
            if is_digit_char(c) {
                lemma_token_lexeme_nonempty(
                    input.skip(1),
                    if st is Start {
                        States::DefiningInteger
                    } else {
                        st
                    },
                    lexeme.push(c),
                );
            } else if st is Start {
                lemma_token_lexeme_nonempty(
                    input.skip(1),
                    States::DefiningIdentifier,
                    lexeme.push(c),
                );
            } else if st is DefiningIdentifier {
                lemma_token_lexeme_nonempty(input.skip(1), st, lexeme.push(c));
            }
        }
    }
}

/// Relies on String::push: appends the given character to the end of the
/// string.
#[verifier::external_body]
fn push_char(s: &mut String, c: char)
    ensures
        final(s)@ == old(s)@.push(c),
{
    s.push(c);
}

/// Classify a completed lexeme by the phase it was accumulated in: an
/// identifier-phase lexeme is looked up in the keyword table, an
/// integer-phase one is a `Number`, a real-phase one a `Real`. Called with
/// `Start` it reports `InternalStateError`.
pub fn basic(st: States, lexeme: String) -> (r: Result<Token, LexerError>)
    ensures
        result_matches(r, spec_basic(st, lexeme@)),
{
    match st {
        States::Start => Err(LexerError::InternalStateError),
        States::DefiningIdentifier => {
            let kw: String = "while".to_owned();
            if lexeme == kw {
                Ok(Token { ty: TokenType::Keyword, lex: lexeme })
            } else {
                Ok(Token { ty: TokenType::Identifier, lex: lexeme })
            }
        },
        States::DefiningInteger => Ok(Token { ty: TokenType::Number, lex: lexeme }),
        States::DefiningReal => Ok(Token { ty: TokenType::Real, lex: lexeme }),
    }
}

/// Scan one token off the front of the cursor. The cursor is left exactly
/// where the model says: after the last character belonging to the token
/// (or error), at the first character of the next one. The result and the
/// characters consumed are precisely those of `spec_scan` run from `Start`
/// with an empty lexeme.
pub fn lexer(chas: &mut Cursor) -> (r: Result<Token, LexerError>)
    requires
        old(chas).wf(),
    ensures
        final(chas).wf(),
        ({
            let out = spec_scan(old(chas).remaining(), States::Start, Seq::empty());
            &&& final(chas).remaining() == out.remaining
            &&& result_matches(r, out.result)
        }),
{
    let ghost input = chas.remaining();
    let mut st = States::Start;
    let mut lexeme = String::new();
    loop
        invariant
            chas.wf(),
            input == old(chas).remaining(),
            spec_scan(input, States::Start, Seq::empty()) == spec_scan(
                chas.remaining(),
                st,
                lexeme@,
            ),
        decreases chas.remaining().len(),
    {
        let c = match chas.peek() {
            Some(v) => v,
            None => match st {
                States::Start => {
                    return Err(LexerError::Eof);
                },
                _ => {
                    return basic(st, lexeme);
                },
            },
        };
        if c == ' ' || c == '\t' || c == '\r' || c == '\n' {
            chas.consume();
            match st {
                States::Start => {},
                _ => {
                    return basic(st, lexeme);
                },
            }
        } else if c == '.' {
            match st {
                States::DefiningInteger => {
                    st = States::DefiningReal;
                    push_char(&mut lexeme, c);
                    chas.consume();
                },
                _ => {
                    return Err(LexerError::IllegalDot);
                },
            }
        } else if c == '(' || c == ')' || c == ';' {
            match st {
                States::Start => {
                    chas.consume();
                    let mut lex = String::new();
                    push_char(&mut lex, c);
                    return Ok(Token { ty: TokenType::Separator, lex });
                },
                _ => {
                    return basic(st, lexeme);
                },
            }
        } else if c == '<' || c == '>' || c == '=' {
            match st {
                States::Start => {
                    chas.consume();
                    let mut lex = String::new();
                    push_char(&mut lex, c);
                    return Ok(Token { ty: TokenType::Operator, lex });
                },
                _ => {
                    return basic(st, lexeme);
                },
            }
        } else if c == '0' || c == '1' || c == '2' || c == '3' || c == '4' || c == '5' || c == '6'
            || c == '7' || c == '8' || c == '9' {
            chas.consume();
            match st {
                States::Start => {
                    st = States::DefiningInteger;
                },
                _ => {},
            }
            push_char(&mut lexeme, c);
        } else {
            chas.consume();
            push_char(&mut lexeme, c);
            match st {
                States::Start => {
                    st = States::DefiningIdentifier;
                },
                States::DefiningIdentifier => {},
                _ => {
                    return Err(LexerError::InvalidIdentifier);
                },
            }
        }
    }
}

} // verus!
