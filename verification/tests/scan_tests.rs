use lexer::cursor::Cursor;
use lexer::scan::{basic, lexer, States};
use lexer::token::{LexerError, TokenType};

fn cur(s: &str) -> Cursor {
    Cursor::new(s.chars().collect())
}

#[test]
fn whitespace_only_is_eof() {
    for s in ["", " ", "\t", "\r\n", "  \t \r \n  "] {
        let mut c = cur(s);
        let r = lexer(&mut c);
        assert!(matches!(r, Err(LexerError::Eof)), "input {:?}", s);
        assert_eq!(c.remaining_len(), 0);
    }
}

#[test]
fn keyword_while() {
    let mut c = cur("while");
    let t = lexer(&mut c).unwrap();
    assert_eq!(t.ty, TokenType::Keyword);
    assert_eq!(t.lex, "while");
    assert_eq!(c.remaining_len(), 0);
}

#[test]
fn keyword_match_is_exact_not_prefix() {
    let mut c = cur("whilex");
    let t = lexer(&mut c).unwrap();
    assert_eq!(t.ty, TokenType::Identifier);
    assert_eq!(t.lex, "whilex");
}

#[test]
fn integer_token() {
    let mut c = cur("123");
    let t = lexer(&mut c).unwrap();
    assert_eq!(t.ty, TokenType::Number);
    assert_eq!(t.lex, "123");
}

#[test]
fn real_token() {
    let mut c = cur("123.45");
    let t = lexer(&mut c).unwrap();
    assert_eq!(t.ty, TokenType::Real);
    assert_eq!(t.lex, "123.45");
}

#[test]
fn second_dot_in_real_is_illegal() {
    let mut c = cur("123.45.6");
    let r = lexer(&mut c);
    assert_eq!(r.err().unwrap(), LexerError::IllegalDot);
}

#[test]
fn dot_at_start_is_illegal() {
    let mut c = cur(".5");
    let r = lexer(&mut c);
    assert_eq!(r.err().unwrap(), LexerError::IllegalDot);
}

#[test]
fn dot_inside_identifier_is_illegal() {
    let mut c = cur("ab.c");
    let r = lexer(&mut c);
    assert_eq!(r.err().unwrap(), LexerError::IllegalDot);
}

#[test]
fn digit_then_letter_is_invalid_identifier() {
    let mut c = cur("1a");
    let r = lexer(&mut c);
    assert_eq!(r.err().unwrap(), LexerError::InvalidIdentifier);
}

#[test]
fn letter_after_real_is_invalid_identifier() {
    let mut c = cur("1.2x");
    let r = lexer(&mut c);
    assert_eq!(r.err().unwrap(), LexerError::InvalidIdentifier);
}

#[test]
fn letter_then_digit_is_identifier() {
    let mut c = cur("a1");
    let t = lexer(&mut c).unwrap();
    assert_eq!(t.ty, TokenType::Identifier);
    assert_eq!(t.lex, "a1");
}

#[test]
fn separators_are_one_character_tokens() {
    for s in ["(", ")", ";"] {
        let mut c = cur(s);
        let t = lexer(&mut c).unwrap();
        assert_eq!(t.ty, TokenType::Separator, "input {:?}", s);
        assert_eq!(t.lex, s);
        assert_eq!(c.remaining_len(), 0);
    }
}

#[test]
fn separator_consumes_exactly_one_character() {
    let mut c = cur("(x");
    let t = lexer(&mut c).unwrap();
    assert_eq!(t.ty, TokenType::Separator);
    assert_eq!(t.lex, "(");
    assert_eq!(c.remaining_len(), 1);
}

#[test]
fn operators_are_one_character_tokens() {
    for s in ["<", ">", "="] {
        let mut c = cur(s);
        let t = lexer(&mut c).unwrap();
        assert_eq!(t.ty, TokenType::Operator, "input {:?}", s);
        assert_eq!(t.lex, s);
        assert_eq!(c.remaining_len(), 0);
    }
}

#[test]
fn terminating_separator_is_not_consumed() {
    let mut c = cur("a;");
    let t = lexer(&mut c).unwrap();
    assert_eq!(t.ty, TokenType::Identifier);
    assert_eq!(t.lex, "a");
    assert_eq!(c.remaining_len(), 1);
    let t2 = lexer(&mut c).unwrap();
    assert_eq!(t2.ty, TokenType::Separator);
    assert_eq!(t2.lex, ";");
}

#[test]
fn leading_whitespace_is_skipped() {
    let mut c = cur("  \t42");
    let t = lexer(&mut c).unwrap();
    assert_eq!(t.ty, TokenType::Number);
    assert_eq!(t.lex, "42");
}

#[test]
fn final_token_without_trailing_terminator() {
    let mut c = cur("x");
    let t = lexer(&mut c).unwrap();
    assert_eq!(t.ty, TokenType::Identifier);
    assert_eq!(t.lex, "x");
    assert!(matches!(lexer(&mut c), Err(LexerError::Eof)));
}

#[test]
fn sequence_of_tokens_in_order() {
    let mut c = cur("while (x < 10) ;");
    let expected = [
        (TokenType::Keyword, "while"),
        (TokenType::Separator, "("),
        (TokenType::Identifier, "x"),
        (TokenType::Operator, "<"),
        (TokenType::Number, "10"),
        (TokenType::Separator, ")"),
        (TokenType::Separator, ";"),
    ];
    for (ty, lex) in expected {
        let t = lexer(&mut c).unwrap();
        assert_eq!(t.ty, ty);
        assert_eq!(t.lex, lex);
    }
    assert!(matches!(lexer(&mut c), Err(LexerError::Eof)));
}

#[test]
fn driver_stops_at_first_malformed_input() {
    // Once the lexer reports malformed input, the remainder of the input is
    // void: a driver collects tokens only up to the error and stops calling.
    let mut c = cur("a b 1c d");
    let mut kinds: Vec<TokenType> = Vec::new();
    let err = loop {
        match lexer(&mut c) {
            Ok(t) => kinds.push(t.ty),
            Err(e) => break e,
        }
    };
    assert_eq!(err, LexerError::InvalidIdentifier);
    assert_eq!(kinds, vec![TokenType::Identifier, TokenType::Identifier]);
}

#[test]
fn basic_classifies_each_phase() {
    let t = basic(States::DefiningIdentifier, String::from("while")).unwrap();
    assert_eq!(t.ty, TokenType::Keyword);
    assert_eq!(t.lex, "while");
    let t = basic(States::DefiningIdentifier, String::from("foo")).unwrap();
    assert_eq!(t.ty, TokenType::Identifier);
    let t = basic(States::DefiningInteger, String::from("7")).unwrap();
    assert_eq!(t.ty, TokenType::Number);
    let t = basic(States::DefiningReal, String::from("7.5")).unwrap();
    assert_eq!(t.ty, TokenType::Real);
}

#[test]
fn basic_from_start_is_internal_state_error() {
    let r = basic(States::Start, String::new());
    assert_eq!(r.err().unwrap(), LexerError::InternalStateError);
}

#[test]
fn keyword_lookup_is_case_sensitive() {
    let mut c = cur("While");
    let t = lexer(&mut c).unwrap();
    assert_eq!(t.ty, TokenType::Identifier);
    assert_eq!(t.lex, "While");
}
