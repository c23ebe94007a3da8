//! Behavioural tests: dots and spreads, numeric sub-formats, comments and
//! their classification, error positions, the diagnostic text, and
//! end-of-input behaviour.

use tslex::error::LexerError;
use tslex::lexer::Lexer;
use tslex::token::{StrSpan, Token, TokenType};

#[test]
fn two_dots_is_an_error_past_the_second_dot() {
    let mut lexer = Lexer::new("..");
    let r = lexer.next_token();
    match r {
        Err(LexerError::UnexpectedCharacter { line, column }) => {
            assert_eq!(line, 1);
            assert_eq!(column, 3);
        }
        other => panic!("expected UnexpectedCharacter, got {:?}", other),
    }
}

#[test]
fn binary_literal_spans_all_five_characters() {
    let mut lexer = Lexer::new("0b101");
    let t = lexer.next_token().unwrap();
    assert_eq!(t.token_type, TokenType::NumericLiteral);
    assert_eq!(t.line, 1);
    assert_eq!(t.start, 1);
    assert_eq!(t.end, 6);
    assert_eq!(t.lexeme, Some(StrSpan { start: 1, end: 6 }));
    assert_eq!(t.literal_value, Some(StrSpan { start: 1, end: 6 }));
}

#[test]
fn binary_prefix_without_digits_is_invalid() {
    let mut lexer = Lexer::new("0b");
    let r = lexer.next_token();
    match r {
        Err(LexerError::InvalidNumber { line, column }) => {
            assert_eq!(line, 1);
            assert_eq!(column, 1);
        }
        other => panic!("expected InvalidNumber, got {:?}", other),
    }
}

#[test]
fn hex_literal_with_stray_letter_errs_at_it() {
    let mut lexer = Lexer::new("0xag");
    let r = lexer.next_token();
    match r {
        Err(LexerError::InvalidNumber { line, column }) => {
            assert_eq!(line, 1);
            assert_eq!(column, 4);
        }
        other => panic!("expected InvalidNumber, got {:?}", other),
    }
}

#[test]
fn octal_literal_scans_whole() {
    let mut lexer = Lexer::new("0o17");
    let t = lexer.next_token().unwrap();
    assert_eq!(t.token_type, TokenType::NumericLiteral);
    assert_eq!(t.lexeme, Some(StrSpan { start: 1, end: 5 }));
}

#[test]
fn decimal_continuation_scans_whole() {
    let mut lexer = Lexer::new("0101");
    let t = lexer.next_token().unwrap();
    assert_eq!(t.token_type, TokenType::NumericLiteral);
    assert_eq!(t.lexeme, Some(StrSpan { start: 1, end: 5 }));
}

#[test]
fn decimal_literal_ends_at_trailing_b() {
    let mut lexer = Lexer::new("0101b");
    let t = lexer.next_token().unwrap();
    assert_eq!(t.token_type, TokenType::NumericLiteral);
    assert_eq!(t.lexeme, Some(StrSpan { start: 1, end: 6 }));
}

#[test]
fn bare_zero_is_a_numeric_literal() {
    let mut lexer = Lexer::new("0");
    let t = lexer.next_token().unwrap();
    assert_eq!(t.token_type, TokenType::NumericLiteral);
    assert_eq!(t.lexeme, Some(StrSpan { start: 1, end: 1 }));
    assert_eq!(t.end, 2);
}

#[test]
fn nonzero_leading_digit_is_invalid() {
    let mut lexer = Lexer::new("7");
    let r = lexer.next_token();
    match r {
        Err(LexerError::InvalidNumber { line, column }) => {
            assert_eq!(line, 1);
            assert_eq!(column, 1);
        }
        other => panic!("expected InvalidNumber, got {:?}", other),
    }
}

#[test]
fn line_comment_excludes_slashes_and_counts_lines() {
    let mut lexer = Lexer::new("// hi\nX");
    let t = lexer.next_token().unwrap();
    assert_eq!(t.token_type, TokenType::MultiLineCommentTrivia);
    assert_eq!(t.line, 1);
    assert_eq!(t.lexeme, Some(StrSpan { start: 3, end: 7 }));
    let r = lexer.next_token();
    match r {
        Err(LexerError::UnexpectedCharacter { line, column }) => {
            assert_eq!(line, 2);
            assert_eq!(column, 1);
        }
        other => panic!("expected UnexpectedCharacter on line 2, got {:?}", other),
    }
}

#[test]
fn unterminated_block_comment_reports_its_first_line() {
    let mut lexer = Lexer::new("/* never closes");
    let r = lexer.next_token();
    match r {
        Err(LexerError::CommentNotTerminated { line, column }) => {
            assert_eq!(line, 1);
            assert_eq!(column, 15);
        }
        other => panic!("expected CommentNotTerminated, got {:?}", other),
    }
}

#[test]
fn unterminated_block_comment_after_newlines_keeps_start_line() {
    let mut lexer = Lexer::new("\n\n/* open");
    lexer.skip();
    let r = lexer.next_token();
    match r {
        Err(LexerError::CommentNotTerminated { line, .. }) => {
            assert_eq!(line, 3);
        }
        other => panic!("expected CommentNotTerminated, got {:?}", other),
    }
}

#[test]
fn jsdoc_comment_is_classified_apart_from_block_comment() {
    let mut lexer = Lexer::new("/** doc */");
    let t = lexer.next_token().unwrap();
    assert_eq!(t.token_type, TokenType::JSDoc);
    assert_eq!(t.line, 1);
    assert_eq!(t.end, 10);
    assert_eq!(t.lexeme, Some(StrSpan { start: 4, end: 10 }));
    assert_eq!(t.literal_value, Some(StrSpan { start: 1, end: 10 }));

    let mut plain = Lexer::new("/* doc */");
    let p = plain.next_token().unwrap();
    assert_eq!(p.token_type, TokenType::MultiLineCommentTrivia);
    assert_eq!(p.end, 9);
    assert_eq!(p.lexeme, Some(StrSpan { start: 3, end: 9 }));
    assert_eq!(p.literal_value, Some(StrSpan { start: 1, end: 9 }));
}

#[test]
fn block_comment_spanning_lines_keeps_start_line() {
    let mut lexer = Lexer::new("/*a\nb*/;");
    let t = lexer.next_token().unwrap();
    assert_eq!(t.token_type, TokenType::MultiLineCommentTrivia);
    assert_eq!(t.line, 1);
    let s = lexer.next_token().unwrap();
    assert_eq!(s.token_type, TokenType::SemicolonToken);
    assert_eq!(s.line, 2);
}

#[test]
fn end_of_input_is_idempotent() {
    let mut lexer = Lexer::new(";");
    let first = lexer.next_token().unwrap();
    assert_eq!(first.token_type, TokenType::SemicolonToken);
    let eof1 = lexer.next_token().unwrap();
    assert_eq!(eof1.token_type, TokenType::EndOfFile);
    let eof2 = lexer.next_token().unwrap();
    assert_eq!(eof2.token_type, TokenType::EndOfFile);
    assert_eq!(eof2.line, eof1.line);
    assert_eq!(eof2.start, eof1.start);
    assert_eq!(eof2.end, eof1.end);
}

#[test]
fn empty_input_yields_end_of_file_only() {
    let mut lexer = Lexer::new("");
    let results = lexer.process();
    assert_eq!(results.len(), 0);
    let mut again = Lexer::new("");
    let t = again.next_token().unwrap();
    assert_eq!(t.token_type, TokenType::EndOfFile);
    assert_eq!(t.line, 1);
    assert_eq!(t.start, 1);
    assert_eq!(t.end, 1);
}

#[test]
fn scanning_continues_after_an_error() {
    let mut lexer = Lexer::new(".. ;");
    let results = lexer.lex();
    assert_eq!(results.len(), 2);
    match &results[0] {
        Err(LexerError::UnexpectedCharacter { line, column }) => {
            assert_eq!(*line, 1);
            assert_eq!(*column, 3);
        }
        other => panic!("expected UnexpectedCharacter first, got {:?}", other),
    }
    match &results[1] {
        Ok(t) => assert_eq!(t.token_type, TokenType::SemicolonToken),
        other => panic!("expected a semicolon second, got {:?}", other),
    }
}

#[test]
fn process_scans_a_stream_of_numeric_literals() {
    let mut lexer = Lexer::new("0b101 0o17 0xabcdef 0101 0101b");
    let results = lexer.process();
    assert_eq!(results.len(), 5);
    for r in &results {
        match r {
            Ok(t) => assert_eq!(t.token_type, TokenType::NumericLiteral),
            Err(e) => panic!("unexpected error {:?}", e),
        }
    }
}

#[test]
fn maximal_munch_takes_the_longest_operator() {
    let mut lexer = Lexer::new(">>>=");
    let results = lexer.lex();
    assert_eq!(results.len(), 1);
    match &results[0] {
        Ok(t) => {
            assert_eq!(
                t.token_type,
                TokenType::GreaterThanGreaterThanGreaterThanEqualsToken
            );
            assert_eq!(t.start, 1);
            assert_eq!(t.end, 5);
        }
        other => panic!("expected one operator token, got {:?}", other),
    }
}

#[test]
fn skip_consumes_trivia_and_counts_lines() {
    let mut lexer = Lexer::new(" \t\r\n  ;");
    lexer.skip();
    let t = lexer.next_token().unwrap();
    assert_eq!(t.token_type, TokenType::SemicolonToken);
    assert_eq!(t.line, 2);
}

#[test]
fn advance_walks_the_characters() {
    let mut lexer = Lexer::new("ab");
    assert_eq!(lexer.advance(), Some('a'));
    assert_eq!(lexer.advance(), Some('b'));
    assert_eq!(lexer.advance(), None);
    assert_eq!(lexer.advance(), None);
}

#[test]
fn match_char_consumes_only_on_a_match() {
    let mut lexer = Lexer::new("+=");
    assert!(!lexer.match_char('x'));
    assert!(lexer.match_char('+'));
    assert!(!lexer.match_char('+'));
    assert!(lexer.match_char('='));
    assert!(!lexer.match_char('='));
}

#[test]
fn token_new_keeps_its_parts() {
    let t = Token::new(
        TokenType::DotToken,
        1,
        2,
        3,
        Some(StrSpan { start: 2, end: 3 }),
        None,
    );
    assert_eq!(t.token_type, TokenType::DotToken);
    assert_eq!(t.line, 1);
    assert_eq!(t.start, 2);
    assert_eq!(t.end, 3);
    assert_eq!(t.lexeme, Some(StrSpan { start: 2, end: 3 }));
    assert_eq!(t.literal_value, None);
}

#[test]
fn new_token_places_the_token_at_the_cursor() {
    let lexer = Lexer::new("abc");
    let t = lexer.new_token(TokenType::Unknown, None, None);
    assert_eq!(t.token_type, TokenType::Unknown);
    assert_eq!(t.line, 1);
    assert_eq!(t.start, 0);
    assert_eq!(t.end, 1);
}

#[test]
fn diagnostic_text_matches_the_format() {
    let e1 = LexerError::UnexpectedCharacter { line: 2, column: 7 };
    assert_eq!(e1.message(), "[2:7] Unexpected Character");
    let e2 = LexerError::StringNotTerminated { line: 1, column: 1 };
    assert_eq!(e2.message(), "[1:1] Unterminated string literal");
    let e3 = LexerError::InvalidNumber { line: 10, column: 42 };
    assert_eq!(e3.message(), "[10:42] Invalid number literal");
    let e4 = LexerError::CommentNotTerminated { line: 3, column: 15 };
    assert_eq!(e4.message(), "[3:15] Unterminated comment");
}

#[test]
fn unknown_character_is_an_unexpected_character_error() {
    let mut lexer = Lexer::new("#");
    let r = lexer.next_token();
    match r {
        Err(LexerError::UnexpectedCharacter { line, column }) => {
            assert_eq!(line, 1);
            assert_eq!(column, 1);
        }
        other => panic!("expected UnexpectedCharacter, got {:?}", other),
    }
}
