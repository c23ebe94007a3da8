//! One test per token shape: each feeds the scanner a single token's text
//! and checks the kind it comes back classified as.

use tslex::lexer::Lexer;
use tslex::token::TokenType;

#[test]
fn test_lexer_token_semicolon() -> Result<(), String> {
    let test_string = ";";
    let mut lexer = Lexer::new(test_string);
    let token = lexer.next_token();

    match token {
        Ok(t) => {
            assert_eq!(t.token_type, TokenType::SemicolonToken);
            Ok(())
        }
        Err(e) => Err(e.message()),
    }
}

#[test]
fn test_lexer_token_left_paren() -> Result<(), String> {
    let test_string = "(";
    let mut lexer = Lexer::new(test_string);
    let token = lexer.next_token();

    match token {
        Ok(t) => {
            assert_eq!(t.token_type, TokenType::LeftParenToken);
            Ok(())
        }
        Err(e) => Err(e.message()),
    }
}

#[test]
fn test_lexer_token_right_paren() -> Result<(), String> {
    let test_string = ")";
    let mut lexer = Lexer::new(test_string);
    let token = lexer.next_token();

    match token {
        Ok(t) => {
            assert_eq!(t.token_type, TokenType::RightParenToken);
            Ok(())
        }
        Err(e) => Err(e.message()),
    }
}

#[test]
fn test_lexer_token_left_brace() -> Result<(), String> {
    let test_string = "{";
    let mut lexer = Lexer::new(test_string);
    let token = lexer.next_token();

    match token {
        Ok(t) => {
            assert_eq!(t.token_type, TokenType::LeftBraceToken);
            Ok(())
        }
        Err(e) => Err(e.message()),
    }
}

#[test]
fn test_lexer_token_right_brace() -> Result<(), String> {
    let test_string = "}";
    let mut lexer = Lexer::new(test_string);
    let token = lexer.next_token();

    match token {
        Ok(t) => {
            assert_eq!(t.token_type, TokenType::RightBraceToken);
            Ok(())
        }
        Err(e) => Err(e.message()),
    }
}

#[test]
fn test_lexer_token_left_bracket() -> Result<(), String> {
    let test_string = "[";
    let mut lexer = Lexer::new(test_string);
    let token = lexer.next_token();

    match token {
        Ok(t) => {
            assert_eq!(t.token_type, TokenType::LeftBracketToken);
            Ok(())
        }
        Err(e) => Err(e.message()),
    }
}

#[test]
fn test_lexer_token_right_bracket() -> Result<(), String> {
    let test_string = "]";
    let mut lexer = Lexer::new(test_string);
    let token = lexer.next_token();

    match token {
        Ok(t) => {
            assert_eq!(t.token_type, TokenType::RightBracketToken);
            Ok(())
        }
        Err(e) => Err(e.message()),
    }
}

#[test]
fn test_lexer_token_comma() -> Result<(), String> {
    let test_string = ",";
    let mut lexer = Lexer::new(test_string);
    let token = lexer.next_token();

    match token {
        Ok(t) => {
            assert_eq!(t.token_type, TokenType::CommaToken);
            Ok(())
        }
        Err(e) => Err(e.message()),
    }
}

#[test]
fn test_lexer_token_tilde() -> Result<(), String> {
    let test_string = "~";
    let mut lexer = Lexer::new(test_string);
    let token = lexer.next_token();

    match token {
        Ok(t) => {
            assert_eq!(t.token_type, TokenType::TildeToken);
            Ok(())
        }
        Err(e) => Err(e.message()),
    }
}

#[test]
fn test_lexer_token_colon() -> Result<(), String> {
    let test_string = ":";
    let mut lexer = Lexer::new(test_string);
    let token = lexer.next_token();

    match token {
        Ok(t) => {
            assert_eq!(t.token_type, TokenType::ColonToken);
            Ok(())
        }
        Err(e) => Err(e.message()),
    }
}

#[test]
fn test_lexer_token_at() -> Result<(), String> {
    let test_string = "@";
    let mut lexer = Lexer::new(test_string);
    let token = lexer.next_token();

    match token {
        Ok(t) => {
            assert_eq!(t.token_type, TokenType::AtToken);
            Ok(())
        }
        Err(e) => Err(e.message()),
    }
}

#[test]
fn test_lexer_token_dot() -> Result<(), String> {
    let test_string = ".";
    let mut lexer = Lexer::new(test_string);
    let token = lexer.next_token();

    match token {
        Ok(t) => {
            assert_eq!(t.token_type, TokenType::DotToken);
            Ok(())
        }
        Err(e) => Err(e.message()),
    }
}

#[test]
fn test_lexer_token_dot_dot_dot() -> Result<(), String> {
    let test_string = "...";
    let mut lexer = Lexer::new(test_string);
    let token = lexer.next_token();

    match token {
        Ok(t) => {
            assert_eq!(t.token_type, TokenType::DotDotDotToken);
            Ok(())
        }
        Err(e) => Err(e.message()),
    }
}

#[test]
fn test_lexer_token_plus() -> Result<(), String> {
    let test_string = "+";
    let mut lexer = Lexer::new(test_string);
    let token = lexer.next_token();

    match token {
        Ok(t) => {
            assert_eq!(t.token_type, TokenType::PlusToken);
            Ok(())
        }
        Err(e) => Err(e.message()),
    }
}

#[test]
fn test_lexer_token_plus_plus() -> Result<(), String> {
    let test_string = "++";
    let mut lexer = Lexer::new(test_string);
    let token = lexer.next_token();

    match token {
        Ok(t) => {
            assert_eq!(t.token_type, TokenType::PlusPlusToken);
            Ok(())
        }
        Err(e) => Err(e.message()),
    }
}

#[test]
fn test_lexer_token_plus_equals() -> Result<(), String> {
    let test_string = "+=";
    let mut lexer = Lexer::new(test_string);
    let token = lexer.next_token();

    match token {
        Ok(t) => {
            assert_eq!(t.token_type, TokenType::PlusEqualsToken);
            Ok(())
        }
        Err(e) => Err(e.message()),
    }
}

#[test]
fn test_lexer_token_minus() -> Result<(), String> {
    let test_string = "-";
    let mut lexer = Lexer::new(test_string);
    let token = lexer.next_token();

    match token {
        Ok(t) => {
            assert_eq!(t.token_type, TokenType::MinusToken);
            Ok(())
        }
        Err(e) => Err(e.message()),
    }
}

#[test]
fn test_lexer_token_minus_minus() -> Result<(), String> {
    let test_string = "--";
    let mut lexer = Lexer::new(test_string);
    let token = lexer.next_token();

    match token {
        Ok(t) => {
            assert_eq!(t.token_type, TokenType::MinusMinusToken);
            Ok(())
        }
        Err(e) => Err(e.message()),
    }
}

#[test]
fn test_lexer_token_minus_equals() -> Result<(), String> {
    let test_string = "-=";
    let mut lexer = Lexer::new(test_string);
    let token = lexer.next_token();

    match token {
        Ok(t) => {
            assert_eq!(t.token_type, TokenType::MinusEqualsToken);
            Ok(())
        }
        Err(e) => Err(e.message()),
    }
}

#[test]
fn test_lexer_token_asterisk() -> Result<(), String> {
    let test_string = "*";
    let mut lexer = Lexer::new(test_string);
    let token = lexer.next_token();

    match token {
        Ok(t) => {
            assert_eq!(t.token_type, TokenType::AsteriskToken);
            Ok(())
        }
        Err(e) => Err(e.message()),
    }
}

#[test]
fn test_lexer_token_asterisk_equals() -> Result<(), String> {
    let test_string = "*=";
    let mut lexer = Lexer::new(test_string);
    let token = lexer.next_token();

    match token {
        Ok(t) => {
            assert_eq!(t.token_type, TokenType::AsteriskEqualsToken);
            Ok(())
        }
        Err(e) => Err(e.message()),
    }
}

#[test]
fn test_lexer_token_asterisk_asterisk() -> Result<(), String> {
    let test_string = "**";
    let mut lexer = Lexer::new(test_string);
    let token = lexer.next_token();

    match token {
        Ok(t) => {
            assert_eq!(t.token_type, TokenType::AsteriskAsteriskToken);
            Ok(())
        }
        Err(e) => Err(e.message()),
    }
}

#[test]
fn test_lexer_token_asterisk_asterisk_equals() -> Result<(), String> {
    let test_string = "**=";
    let mut lexer = Lexer::new(test_string);
    let token = lexer.next_token();

    match token {
        Ok(t) => {
            assert_eq!(t.token_type, TokenType::AsteriskAsteriskEqualsToken);
            Ok(())
        }
        Err(e) => Err(e.message()),
    }
}

#[test]
fn test_lexer_token_slash() -> Result<(), String> {
    let test_string = "/";
    let mut lexer = Lexer::new(test_string);
    let token = lexer.next_token();

    match token {
        Ok(t) => {
            assert_eq!(t.token_type, TokenType::SlashToken);
            Ok(())
        }
        Err(e) => Err(e.message()),
    }
}

#[test]
fn test_lexer_token_slash_equals() -> Result<(), String> {
    let test_string = "/=";
    let mut lexer = Lexer::new(test_string);
    let token = lexer.next_token();

    match token {
        Ok(t) => {
            assert_eq!(t.token_type, TokenType::SlashEqualsToken);
            Ok(())
        }
        Err(e) => Err(e.message()),
    }
}

#[test]
fn test_lexer_token_percent() -> Result<(), String> {
    let test_string = "%";
    let mut lexer = Lexer::new(test_string);
    let token = lexer.next_token();

    match token {
        Ok(t) => {
            assert_eq!(t.token_type, TokenType::PercentToken);
            Ok(())
        }
        Err(e) => Err(e.message()),
    }
}

#[test]
fn test_lexer_token_percent_equals() -> Result<(), String> {
    let test_string = "%=";
    let mut lexer = Lexer::new(test_string);
    let token = lexer.next_token();

    match token {
        Ok(t) => {
            assert_eq!(t.token_type, TokenType::PercentEqualsToken);
            Ok(())
        }
        Err(e) => Err(e.message()),
    }
}

#[test]
fn test_lexer_token_equals() -> Result<(), String> {
    let test_string = "=";
    let mut lexer = Lexer::new(test_string);
    let token = lexer.next_token();

    match token {
        Ok(t) => {
            assert_eq!(t.token_type, TokenType::EqualsToken);
            Ok(())
        }
        Err(e) => Err(e.message()),
    }
}

#[test]
fn test_lexer_token_equals_equals() -> Result<(), String> {
    let test_string = "==";
    let mut lexer = Lexer::new(test_string);
    let token = lexer.next_token();

    match token {
        Ok(t) => {
            assert_eq!(t.token_type, TokenType::EqualsEqualsToken);
            Ok(())
        }
        Err(e) => Err(e.message()),
    }
}

#[test]
fn test_lexer_token_equals_equals_equals() -> Result<(), String> {
    let test_string = "===";
    let mut lexer = Lexer::new(test_string);
    let token = lexer.next_token();

    match token {
        Ok(t) => {
            assert_eq!(t.token_type, TokenType::EqualsEqualsEqualsToken);
            Ok(())
        }
        Err(e) => Err(e.message()),
    }
}

#[test]
fn test_lexer_token_equals_greater() -> Result<(), String> {
    let test_string = "=>";
    let mut lexer = Lexer::new(test_string);
    let token = lexer.next_token();

    match token {
        Ok(t) => {
            assert_eq!(t.token_type, TokenType::EqualsGreaterThanToken);
            Ok(())
        }
        Err(e) => Err(e.message()),
    }
}

#[test]
fn test_lexer_token_exclamation() -> Result<(), String> {
    let test_string = "!";
    let mut lexer = Lexer::new(test_string);
    let token = lexer.next_token();

    match token {
        Ok(t) => {
            assert_eq!(t.token_type, TokenType::ExclamationToken);
            Ok(())
        }
        Err(e) => Err(e.message()),
    }
}

#[test]
fn test_lexer_token_exclamation_equals() -> Result<(), String> {
    let test_string = "!=";
    let mut lexer = Lexer::new(test_string);
    let token = lexer.next_token();

    match token {
        Ok(t) => {
            assert_eq!(t.token_type, TokenType::ExclamationEqualsToken);
            Ok(())
        }
        Err(e) => Err(e.message()),
    }
}

#[test]
fn test_lexer_token_exclamation_equals_equals() -> Result<(), String> {
    let test_string = "!==";
    let mut lexer = Lexer::new(test_string);
    let token = lexer.next_token();

    match token {
        Ok(t) => {
            assert_eq!(t.token_type, TokenType::ExclamationEqualsEqualsToken);
            Ok(())
        }
        Err(e) => Err(e.message()),
    }
}

#[test]
fn test_lexer_token_question() -> Result<(), String> {
    let test_string = "?";
    let mut lexer = Lexer::new(test_string);
    let token = lexer.next_token();

    match token {
        Ok(t) => {
            assert_eq!(t.token_type, TokenType::QuestionToken);
            Ok(())
        }
        Err(e) => Err(e.message()),
    }
}

#[test]
fn test_lexer_token_question_question() -> Result<(), String> {
    let test_string = "??";
    let mut lexer = Lexer::new(test_string);
    let token = lexer.next_token();

    match token {
        Ok(t) => {
            assert_eq!(t.token_type, TokenType::QuestionQuestionToken);
            Ok(())
        }
        Err(e) => Err(e.message()),
    }
}

#[test]
fn test_lexer_token_question_question_equals() -> Result<(), String> {
    let test_string = "??=";
    let mut lexer = Lexer::new(test_string);
    let token = lexer.next_token();

    match token {
        Ok(t) => {
            assert_eq!(t.token_type, TokenType::QuestionQuestionEqualsToken);
            Ok(())
        }
        Err(e) => Err(e.message()),
    }
}

#[test]
fn test_lexer_token_question_dot() -> Result<(), String> {
    let test_string = "?.";
    let mut lexer = Lexer::new(test_string);
    let token = lexer.next_token();

    match token {
        Ok(t) => {
            assert_eq!(t.token_type, TokenType::QuestionDotToken);
            Ok(())
        }
        Err(e) => Err(e.message()),
    }
}

#[test]
fn test_lexer_token_less() -> Result<(), String> {
    let test_string = "<";
    let mut lexer = Lexer::new(test_string);
    let token = lexer.next_token();

    match token {
        Ok(t) => {
            assert_eq!(t.token_type, TokenType::LessThanToken);
            Ok(())
        }
        Err(e) => Err(e.message()),
    }
}

#[test]
fn test_lexer_token_less_equals() -> Result<(), String> {
    let test_string = "<=";
    let mut lexer = Lexer::new(test_string);
    let token = lexer.next_token();

    match token {
        Ok(t) => {
            assert_eq!(t.token_type, TokenType::LessThanEqualsToken);
            Ok(())
        }
        Err(e) => Err(e.message()),
    }
}

#[test]
fn test_lexer_token_less_slash() -> Result<(), String> {
    let test_string = "</";
    let mut lexer = Lexer::new(test_string);
    let token = lexer.next_token();

    match token {
        Ok(t) => {
            assert_eq!(t.token_type, TokenType::LessThanSlashToken);
            Ok(())
        }
        Err(e) => Err(e.message()),
    }
}

#[test]
fn test_lexer_token_less_less() -> Result<(), String> {
    let test_string = "<<";
    let mut lexer = Lexer::new(test_string);
    let token = lexer.next_token();

    match token {
        Ok(t) => {
            assert_eq!(t.token_type, TokenType::LessThanLessThanToken);
            Ok(())
        }
        Err(e) => Err(e.message()),
    }
}

#[test]
fn test_lexer_token_less_less_equals() -> Result<(), String> {
    let test_string = "<<=";
    let mut lexer = Lexer::new(test_string);
    let token = lexer.next_token();

    match token {
        Ok(t) => {
            assert_eq!(t.token_type, TokenType::LessThanLessThanEqualsToken);
            Ok(())
        }
        Err(e) => Err(e.message()),
    }
}

#[test]
fn test_lexer_token_greater() -> Result<(), String> {
    let test_string = ">";
    let mut lexer = Lexer::new(test_string);
    let token = lexer.next_token();

    match token {
        Ok(t) => {
            assert_eq!(t.token_type, TokenType::GreaterThanToken);
            Ok(())
        }
        Err(e) => Err(e.message()),
    }
}

#[test]
fn test_lexer_token_greater_equals() -> Result<(), String> {
    let test_string = ">=";
    let mut lexer = Lexer::new(test_string);
    let token = lexer.next_token();

    match token {
        Ok(t) => {
            assert_eq!(t.token_type, TokenType::GreaterThanEqualsToken);
            Ok(())
        }
        Err(e) => Err(e.message()),
    }
}

#[test]
fn test_lexer_token_greater_greater() -> Result<(), String> {
    let test_string = ">>";
    let mut lexer = Lexer::new(test_string);
    let token = lexer.next_token();

    match token {
        Ok(t) => {
            assert_eq!(t.token_type, TokenType::GreaterThanGreaterThanToken);
            Ok(())
        }
        Err(e) => Err(e.message()),
    }
}

#[test]
fn test_lexer_token_greater_greater_equals() -> Result<(), String> {
    let test_string = ">>=";
    let mut lexer = Lexer::new(test_string);
    let token = lexer.next_token();

    match token {
        Ok(t) => {
            assert_eq!(t.token_type, TokenType::GreaterThanGreaterThanEqualsToken);
            Ok(())
        }
        Err(e) => Err(e.message()),
    }
}

#[test]
fn test_lexer_token_greater_greater_greater() -> Result<(), String> {
    let test_string = ">>>";
    let mut lexer = Lexer::new(test_string);
    let token = lexer.next_token();

    match token {
        Ok(t) => {
            assert_eq!(t.token_type, TokenType::GreaterThanGreaterThanGreaterThanToken);
            Ok(())
        }
        Err(e) => Err(e.message()),
    }
}

#[test]
fn test_lexer_token_greater_greater_greater_equals() -> Result<(), String> {
    let test_string = ">>>=";
    let mut lexer = Lexer::new(test_string);
    let token = lexer.next_token();

    match token {
        Ok(t) => {
            assert_eq!(t.token_type, TokenType::GreaterThanGreaterThanGreaterThanEqualsToken);
            Ok(())
        }
        Err(e) => Err(e.message()),
    }
}

#[test]
fn test_lexer_token_ampersand() -> Result<(), String> {
    let test_string = "&";
    let mut lexer = Lexer::new(test_string);
    let token = lexer.next_token();

    match token {
        Ok(t) => {
            assert_eq!(t.token_type, TokenType::AmpersandToken);
            Ok(())
        }
        Err(e) => Err(e.message()),
    }
}

#[test]
fn test_lexer_token_ampersand_ampersand() -> Result<(), String> {
    let test_string = "&&";
    let mut lexer = Lexer::new(test_string);
    let token = lexer.next_token();

    match token {
        Ok(t) => {
            assert_eq!(t.token_type, TokenType::AmpersandAmpersandToken);
            Ok(())
        }
        Err(e) => Err(e.message()),
    }
}

#[test]
fn test_lexer_token_ampersand_ampersand_equals() -> Result<(), String> {
    let test_string = "&&=";
    let mut lexer = Lexer::new(test_string);
    let token = lexer.next_token();

    match token {
        Ok(t) => {
            assert_eq!(t.token_type, TokenType::AmpersandAmpersandEqualsToken);
            Ok(())
        }
        Err(e) => Err(e.message()),
    }
}

#[test]
fn test_lexer_token_ampersand_equals() -> Result<(), String> {
    let test_string = "&=";
    let mut lexer = Lexer::new(test_string);
    let token = lexer.next_token();

    match token {
        Ok(t) => {
            assert_eq!(t.token_type, TokenType::AmpersandEqualsToken);
            Ok(())
        }
        Err(e) => Err(e.message()),
    }
}

#[test]
fn test_lexer_token_bar() -> Result<(), String> {
    let test_string = "|";
    let mut lexer = Lexer::new(test_string);
    let token = lexer.next_token();

    match token {
        Ok(t) => {
            assert_eq!(t.token_type, TokenType::BarToken);
            Ok(())
        }
        Err(e) => Err(e.message()),
    }
}

#[test]
fn test_lexer_token_bar_bar() -> Result<(), String> {
    let test_string = "||";
    let mut lexer = Lexer::new(test_string);
    let token = lexer.next_token();

    match token {
        Ok(t) => {
            assert_eq!(t.token_type, TokenType::BarBarToken);
            Ok(())
        }
        Err(e) => Err(e.message()),
    }
}

#[test]
fn test_lexer_token_bar_bar_equals() -> Result<(), String> {
    let test_string = "||=";
    let mut lexer = Lexer::new(test_string);
    let token = lexer.next_token();

    match token {
        Ok(t) => {
            assert_eq!(t.token_type, TokenType::BarBarEqualsToken);
            Ok(())
        }
        Err(e) => Err(e.message()),
    }
}

#[test]
fn test_lexer_token_bar_equals() -> Result<(), String> {
    let test_string = "|=";
    let mut lexer = Lexer::new(test_string);
    let token = lexer.next_token();

    match token {
        Ok(t) => {
            assert_eq!(t.token_type, TokenType::BarEqualsToken);
            Ok(())
        }
        Err(e) => Err(e.message()),
    }
}

#[test]
fn test_lexer_token_caret() -> Result<(), String> {
    let test_string = "^";
    let mut lexer = Lexer::new(test_string);
    let token = lexer.next_token();

    match token {
        Ok(t) => {
            assert_eq!(t.token_type, TokenType::CaretToken);
            Ok(())
        }
        Err(e) => Err(e.message()),
    }
}

#[test]
fn test_lexer_token_caret_equals() -> Result<(), String> {
    let test_string = "^=";
    let mut lexer = Lexer::new(test_string);
    let token = lexer.next_token();

    match token {
        Ok(t) => {
            assert_eq!(t.token_type, TokenType::CaretEqualsToken);
            Ok(())
        }
        Err(e) => Err(e.message()),
    }
}

#[test]
fn test_lexer_numeric_literal_binary() -> Result<(), String> {
    let test_string = "0b101";
    let mut lexer = Lexer::new(test_string);
    let token = lexer.next_token();

    println!("{:?}", token);

    match token {
        Ok(t) => {
            assert_eq!(t.token_type, TokenType::NumericLiteral);
            Ok(())
        }
        Err(e) => Err(e.message()),
    }
}
