use vstd::prelude::*;

verus! {

/// The closed taxonomy of lex failures.  Every variant carries the line and
/// the running column at which the failure was detected.
#[derive(Debug, Clone, Copy, PartialEq, Eq, Structural)]
pub enum LexerError {
    UnexpectedCharacter { line: usize, column: usize },
    StringNotTerminated { line: usize, column: usize },
    InvalidNumber { line: usize, column: usize },
    CommentNotTerminated { line: usize, column: usize },
}

/// The mathematical value of a `LexerError`, with positions as unbounded
/// integers.
pub ghost enum ErrorModel {
    UnexpectedCharacter { line: int, column: int },
    StringNotTerminated { line: int, column: int },
    InvalidNumber { line: int, column: int },
    CommentNotTerminated { line: int, column: int },
}

impl View for LexerError {
    type V = ErrorModel;

    open spec fn view(&self) -> ErrorModel {
        match *self {
            LexerError::UnexpectedCharacter { line, column } => ErrorModel::UnexpectedCharacter {
                line: line as int,
                column: column as int,
            },
            LexerError::StringNotTerminated { line, column } => ErrorModel::StringNotTerminated {
                line: line as int,
                column: column as int,
            },
            LexerError::InvalidNumber { line, column } => ErrorModel::InvalidNumber {
                line: line as int,
                column: column as int,
            },
            LexerError::CommentNotTerminated { line, column } => ErrorModel::CommentNotTerminated {
                line: line as int,
                column: column as int,
            },
        }
    }
}

/// The decimal digits of `n`, most significant first; `n` below zero has no
/// digits.
pub open spec fn dec_digits(n: int) -> Seq<char>
    decreases n,
{
    if n < 0 {
        Seq::empty()
    } else if n < 10 {
        seq![digit_char(n)]
    } else {
        dec_digits(n / 10).push(digit_char(n % 10))
    }
}

/// The character for one decimal digit.
pub open spec fn digit_char(d: int) -> char {
    if d == 0 {
        '0'
    } else if d == 1 {
        '1'
    } else if d == 2 {
        '2'
    } else if d == 3 {
        '3'
    } else if d == 4 {
        '4'
    } else if d == 5 {
        '5'
    } else if d == 6 {
        '6'
    } else if d == 7 {
        '7'
    } else if d == 8 {
        '8'
    } else {
        '9'
    }
}

/// The diagnostic line `[line:column] message` as a character sequence.
pub open spec fn formatted(line: int, column: int, message: Seq<char>) -> Seq<char> {
    "["@ + dec_digits(line) + ":"@ + dec_digits(column) + "] "@ + message
}

impl LexerError {
    /// The exact text `message` renders for this error.
    pub open spec fn message_model(self) -> Seq<char> {
        match self {
            LexerError::UnexpectedCharacter { line, column } => formatted(
                line as int,
                column as int,
                "Unexpected Character"@,
            ),
            LexerError::StringNotTerminated { line, column } => formatted(
                line as int,
                column as int,
                "Unterminated string literal"@,
            ),
            LexerError::InvalidNumber { line, column } => formatted(
                line as int,
                column as int,
                "Invalid number literal"@,
            ),
            LexerError::CommentNotTerminated { line, column } => formatted(
                line as int,
                column as int,
                "Unterminated comment"@,
            ),
        }
    }

    /// Renders the diagnostic text `[line:column] message` for this error.
    pub fn message(&self) -> (r: String)
        ensures
            r@ == self.message_model(),
    {
        let (line, column, text): (usize, usize, &str) = match *self {
            LexerError::UnexpectedCharacter { line, column } => (
                line,
                column,
                "Unexpected Character",
            ),
            LexerError::StringNotTerminated { line, column } => (
                line,
                column,
                "Unterminated string literal",
            ),
            LexerError::InvalidNumber { line, column } => (line, column, "Invalid number literal"),
            LexerError::CommentNotTerminated { line, column } => (
                line,
                column,
                "Unterminated comment",
            ),
        };
        let mut s = String::from_str("[");
        s.append(digits_string(line).as_str());
        s.append(":");
        s.append(digits_string(column).as_str());
        s.append("] ");
        s.append(text);
        s
    }
}

/// Renders `n` in decimal.
pub fn digits_string(n: usize) -> (r: String)
    ensures
        r@ == dec_digits(n as int),
    decreases n,
{
    if n < 10 {
        String::from_str(digit_str(n))
    } else {
        let mut s = digits_string(n / 10);
        s.append(digit_str(n % 10));
        proof {
            assert(s@ =~= dec_digits(n as int));
        }
        s
    }
}

/// The one-character text for a decimal digit.
fn digit_str(d: usize) -> (r: &'static str)
    requires
        d < 10,
    ensures
        r@ == seq![digit_char(d as int)],
{
    let r: &'static str = match d {
        0 => "0",
        1 => "1",
        2 => "2",
        3 => "3",
        4 => "4",
        5 => "5",
        6 => "6",
        7 => "7",
        8 => "8",
        _ => "9",
    };
    proof {
        reveal_strlit("0");
        reveal_strlit("1");
        reveal_strlit("2");
        reveal_strlit("3");
        reveal_strlit("4");
        reveal_strlit("5");
        reveal_strlit("6");
        reveal_strlit("7");
        reveal_strlit("8");
        reveal_strlit("9");
        assert(r@ =~= seq![digit_char(d as int)]);
    }
    r
}

} // verus!
