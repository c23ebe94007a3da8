//! The mathematical model of the scanner.
//!
//! A `LexState` holds the character sequence being scanned together with the
//! cursor's bookkeeping counters.  Every operation of the executable scanner
//! is specified as a function over this model, so each contract pins the
//! result and the successor state down exactly.

use vstd::prelude::*;

use crate::error::ErrorModel;
use crate::token::{SpanModel, TokenModel, TokenType};

verus! {

/// One scan step yields either a token or a positioned error.
pub type ScanModel = Result<TokenModel, ErrorModel>;

/// The scanner state: the full source, the index of the next unconsumed
/// character, and the three position counters the cursor tracks.
///
/// `line` is 1-based.  `current` is a running column counter: it grows by the
/// encoded width of each consumed character and is reset at line boundaries
/// (to 1 by trivia skipping, to 0 inside comments).  `start` marks where the
/// token being scanned began, as `current + 1` at the moment scanning
/// started.
pub ghost struct LexState {
    pub src: Seq<char>,
    pub pos: int,
    pub line: int,
    pub start: int,
    pub current: int,
}

impl LexState {
    /// The state a fresh scanner starts in.
    pub open spec fn init(src: Seq<char>) -> LexState {
        LexState { src, pos: 0, line: 1, start: 0, current: 0 }
    }

    /// Well-formedness: the counters stay within bounds that rule out
    /// arithmetic overflow in the executable scanner.  `current` can exceed
    /// the number of consumed characters only through the one-step column
    /// bump before an invalid-number error, hence the `5 * pos + 1` bound
    /// (each consumed character contributes at most 4).
    pub open spec fn wf(self) -> bool {
        &&& 0 <= self.pos <= self.src.len()
        &&& 1 <= self.line <= self.pos + 1
        &&& 0 <= self.current <= 5 * self.pos + 1
        &&& 0 <= self.start <= 5 * self.src.len() + 2
        &&& 8 * self.src.len() <= usize::MAX
    }

    /// Whether no characters remain.
    pub open spec fn at_end(self) -> bool {
        self.pos >= self.src.len()
    }

    /// The state after consuming the character at `pos`.
    pub open spec fn consumed(self) -> LexState {
        LexState {
            pos: self.pos + 1,
            current: self.current + char_width(self.src[self.pos]),
            ..self
        }
    }
}

/// The number of bytes the UTF-8 encoding of `c` occupies.
pub open spec fn char_width(c: char) -> int {
    if (c as u32) < 0x80 {
        1
    } else if (c as u32) < 0x800 {
        2
    } else if (c as u32) < 0x10000 {
        3
    } else {
        4
    }
}

/// Consuming one character, or nothing at end of input.
pub open spec fn advance(st: LexState) -> (Option<char>, LexState) {
    if st.at_end() {
        (None, st)
    } else {
        (Some(st.src[st.pos]), st.consumed())
    }
}

/// Conditional consumption: the character at `pos` is consumed exactly when
/// it equals `expected`.
pub open spec fn match_char(st: LexState, expected: char) -> (bool, LexState) {
    if !st.at_end() && st.src[st.pos] == expected {
        (true, st.consumed())
    } else {
        (false, st)
    }
}

/// Whitespace skipping: spaces, tabs and carriage returns bump the running
/// column; a newline starts the next line and resets the running column to 1.
pub open spec fn skip(st: LexState) -> LexState
    decreases st.src.len() - st.pos,
{
    if st.at_end() {
        st
    } else {
        let c = st.src[st.pos];
        if c == ' ' || c == '\r' || c == '\t' {
            skip(LexState { pos: st.pos + 1, current: st.current + 1, ..st })
        } else if c == '\n' {
            skip(LexState { pos: st.pos + 1, current: 1, line: st.line + 1, ..st })
        } else {
            st
        }
    }
}

/// A token assembled at the current state: it spans from `start` to one past
/// the running column.
pub open spec fn token_at(
    st: LexState,
    token_type: TokenType,
    lexeme: Option<SpanModel>,
    literal_value: Option<SpanModel>,
) -> TokenModel {
    TokenModel {
        token_type,
        line: st.line,
        start: st.start,
        end: st.current + 1,
        lexeme,
        literal_value,
    }
}

/// A spanless token and an unchanged state: the shape every punctuation and
/// operator branch returns.
pub open spec fn punct(st: LexState, token_type: TokenType) -> (ScanModel, LexState) {
    (Ok(token_at(st, token_type, None, None)), st)
}

/// The body of a single-line comment: characters are consumed up to and
/// including the terminating newline; the flag reports whether a newline
/// (rather than end of input) stopped the scan.
pub open spec fn line_comment_scan(st: LexState) -> (bool, LexState)
    decreases st.src.len() - st.pos,
{
    if st.at_end() {
        (false, st)
    } else {
        let c = st.src[st.pos];
        let st1 = st.consumed();
        if c == '\n' {
            (true, st1)
        } else {
            line_comment_scan(st1)
        }
    }
}

/// A single-line comment, entered with both slashes consumed.  The lexeme
/// excludes the two slashes.  When a newline ended the comment, the token is
/// built first and the line counter is advanced afterwards.
pub open spec fn line_comment(st: LexState) -> (ScanModel, LexState) {
    let (hit_newline, st1) = line_comment_scan(st);
    let tok = token_at(
        st1,
        TokenType::MultiLineCommentTrivia,
        Some(SpanModel { start: st1.start + 2, end: st1.current + 1 }),
        Some(SpanModel { start: st1.start, end: st1.current + 1 }),
    );
    if hit_newline {
        (Ok(tok), LexState { line: st1.line + 1, current: 0, ..st1 })
    } else {
        (Ok(tok), st1)
    }
}

/// The body of a block comment: consumed until `*/`, tracking embedded
/// newlines.  Reaching end of input first is an unterminated-comment error
/// carrying the line the comment began on and the running column at the end.
pub open spec fn block_comment_scan(st: LexState, start_line: int) -> (
    Option<ErrorModel>,
    LexState,
)
    decreases st.src.len() - st.pos,
{
    if st.at_end() {
        (Some(ErrorModel::CommentNotTerminated { line: start_line, column: st.current }), st)
    } else {
        let c = st.src[st.pos];
        let st1 = st.consumed();
        if c == '\n' {
            block_comment_scan(LexState { current: 0, line: st1.line + 1, ..st1 }, start_line)
        } else if c == '*' {
            let (m, st2) = match_char(st1, '/');
            if m {
                (None, st2)
            } else {
                block_comment_scan(st2, start_line)
            }
        } else {
            block_comment_scan(st1, start_line)
        }
    }
}

/// A block comment, entered with `/*` consumed.  A third `*` right away
/// makes it a documentation comment, whose lexeme also excludes that `*`.
/// Either way the token's line is the line the comment began on and its end
/// is the running column after the closing `*/`.
pub open spec fn block_comment(st: LexState) -> (ScanModel, LexState) {
    let start_line = st.line;
    let (is_jsdoc, st1) = match_char(st, '*');
    let (err, st2) = block_comment_scan(st1, start_line);
    match err {
        Some(e) => (Err(e), st2),
        None => if is_jsdoc {
            (
                Ok(
                    TokenModel {
                        token_type: TokenType::JSDoc,
                        line: start_line,
                        start: st2.start,
                        end: st2.current,
                        lexeme: Some(SpanModel { start: st2.start + 3, end: st2.current }),
                        literal_value: Some(SpanModel { start: st2.start, end: st2.current }),
                    },
                ),
                st2,
            )
        } else {
            (
                Ok(
                    TokenModel {
                        token_type: TokenType::MultiLineCommentTrivia,
                        line: start_line,
                        start: st2.start,
                        end: st2.current,
                        lexeme: Some(SpanModel { start: st2.start + 2, end: st2.current }),
                        literal_value: Some(SpanModel { start: st2.start, end: st2.current }),
                    },
                ),
                st2,
            )
        },
    }
}

/// The four numeric sub-formats.
pub ghost enum Radix {
    Binary,
    Octal,
    Decimal,
    Hexadecimal,
}

/// The digit alphabet of each sub-format.
pub open spec fn is_radix_digit(r: Radix, c: char) -> bool {
    match r {
        Radix::Binary => c == '0' || c == '1',
        Radix::Octal => c == '0' || c == '1' || c == '2' || c == '3' || c == '4' || c == '5' || c
            == '6' || c == '7',
        Radix::Decimal => c == '0' || c == '1' || c == '2' || c == '3' || c == '4' || c == '5' || c
            == '6' || c == '7' || c == '8' || c == '9',
        Radix::Hexadecimal => c == '0' || c == '1' || c == '2' || c == '3' || c == '4' || c == '5'
            || c == '6' || c == '7' || c == '8' || c == '9' || c == 'a' || c == 'b' || c == 'c' || c
            == 'd' || c == 'e' || c == 'f' || c == 'A' || c == 'B' || c == 'C' || c == 'D' || c
            == 'E' || c == 'F',
    }
}

/// The characters that cleanly terminate a numeric literal.
pub open spec fn is_number_end(c: char) -> bool {
    c == ' ' || c == '\n' || c == '\r' || c == '\t' || c == ';'
}

/// The greedy tail of a numeric literal: digits of the alphabet are
/// consumed; a terminator or end of input stops the scan; in the decimal
/// form a `b` is consumed as a terminator; any other character bumps the
/// running column and is an invalid-number error at that column.
pub open spec fn radix_tail(st: LexState, r: Radix) -> (Option<ErrorModel>, LexState)
    decreases st.src.len() - st.pos,
{
    if st.at_end() {
        (None, st)
    } else {
        let c = st.src[st.pos];
        if is_number_end(c) {
            (None, st)
        } else if is_radix_digit(r, c) {
            radix_tail(st.consumed(), r)
        } else if r == Radix::Decimal && c == 'b' {
            (None, st.consumed())
        } else {
            let st1 = LexState { current: st.current + 1, ..st };
            (Some(ErrorModel::InvalidNumber { line: st1.line, column: st1.current }), st1)
        }
    }
}

/// A completed numeric literal: lexeme and value both cover the full
/// literal, prefix included.
pub open spec fn numeric_token(st: LexState) -> TokenModel {
    token_at(
        st,
        TokenType::NumericLiteral,
        Some(SpanModel { start: st.start, end: st.current + 1 }),
        Some(SpanModel { start: st.start, end: st.current + 1 }),
    )
}

/// A bare `0` literal, whose spans end at the running column itself.
pub open spec fn zero_token(st: LexState) -> TokenModel {
    token_at(
        st,
        TokenType::NumericLiteral,
        Some(SpanModel { start: st.start, end: st.current }),
        Some(SpanModel { start: st.start, end: st.current }),
    )
}

/// A prefixed literal (binary, octal or hexadecimal), entered with the `0`
/// consumed and the prefix letter at `pos`.  At least one digit must follow
/// the prefix; a missing digit is an invalid-number error at the token
/// start.
pub open spec fn prefixed_literal(st: LexState, r: Radix) -> (ScanModel, LexState) {
    let st1 = advance(st).1;
    if st1.at_end() {
        (Err(ErrorModel::InvalidNumber { line: st1.line, column: st1.start }), st1)
    } else if is_radix_digit(r, st1.src[st1.pos]) {
        let st2 = st1.consumed();
        let (err, st3) = radix_tail(st2, r);
        match err {
            Some(e) => (Err(e), st3),
            None => (Ok(numeric_token(st3)), st3),
        }
    } else {
        (Err(ErrorModel::InvalidNumber { line: st1.line, column: st1.start }), st1)
    }
}

/// A decimal continuation, entered with the `0` consumed and a further
/// decimal digit at `pos`.
pub open spec fn decimal_literal(st: LexState) -> (ScanModel, LexState) {
    let st1 = advance(st).1;
    let (err, st2) = radix_tail(st1, Radix::Decimal);
    match err {
        Some(e) => (Err(e), st2),
        None => (Ok(numeric_token(st2)), st2),
    }
}

/// Dispatch after a leading `0`: a digit continues as decimal, a prefix
/// letter selects its sub-format, and anything else leaves a bare `0`.
pub open spec fn numeric_starting_zero(st: LexState) -> (ScanModel, LexState) {
    if st.at_end() {
        (Ok(zero_token(st)), st)
    } else {
        let c = st.src[st.pos];
        if is_radix_digit(Radix::Decimal, c) {
            decimal_literal(st)
        } else if c == 'b' || c == 'B' {
            prefixed_literal(st, Radix::Binary)
        } else if c == 'o' || c == 'O' {
            prefixed_literal(st, Radix::Octal)
        } else if c == 'x' || c == 'X' {
            prefixed_literal(st, Radix::Hexadecimal)
        } else {
            (Ok(zero_token(st)), st)
        }
    }
}

/// `.` alone is a dot; `...` is a spread; `..` is an unexpected-character
/// error whose column points just past the second dot.
pub open spec fn after_dot(st: LexState) -> (ScanModel, LexState) {
    let (m1, st1) = match_char(st, '.');
    if m1 {
        let (m2, st2) = match_char(st1, '.');
        if m2 {
            punct(st2, TokenType::DotDotDotToken)
        } else {
            (
                Err(ErrorModel::UnexpectedCharacter { line: st2.line, column: st2.current + 1 }),
                st2,
            )
        }
    } else {
        punct(st1, TokenType::DotToken)
    }
}

pub open spec fn after_plus(st: LexState) -> (ScanModel, LexState) {
    let (m1, st1) = match_char(st, '+');
    if m1 {
        punct(st1, TokenType::PlusPlusToken)
    } else {
        let (m2, st2) = match_char(st1, '=');
        if m2 {
            punct(st2, TokenType::PlusEqualsToken)
        } else {
            punct(st2, TokenType::PlusToken)
        }
    }
}

pub open spec fn after_minus(st: LexState) -> (ScanModel, LexState) {
    let (m1, st1) = match_char(st, '-');
    if m1 {
        punct(st1, TokenType::MinusMinusToken)
    } else {
        let (m2, st2) = match_char(st1, '=');
        if m2 {
            punct(st2, TokenType::MinusEqualsToken)
        } else {
            punct(st2, TokenType::MinusToken)
        }
    }
}

pub open spec fn after_asterisk(st: LexState) -> (ScanModel, LexState) {
    let (m1, st1) = match_char(st, '=');
    if m1 {
        punct(st1, TokenType::AsteriskEqualsToken)
    } else {
        let (m2, st2) = match_char(st1, '*');
        if m2 {
            let (m3, st3) = match_char(st2, '=');
            if m3 {
                punct(st3, TokenType::AsteriskAsteriskEqualsToken)
            } else {
                punct(st3, TokenType::AsteriskAsteriskToken)
            }
        } else {
            punct(st2, TokenType::AsteriskToken)
        }
    }
}

/// `/` begins a comment when another `/` or a `*` follows; otherwise it is
/// division, compound or plain.
pub open spec fn after_slash(st: LexState) -> (ScanModel, LexState) {
    let (m1, st1) = match_char(st, '/');
    if m1 {
        line_comment(st1)
    } else {
        let (m2, st2) = match_char(st1, '*');
        if m2 {
            block_comment(st2)
        } else {
            let (m3, st3) = match_char(st2, '=');
            if m3 {
                punct(st3, TokenType::SlashEqualsToken)
            } else {
                punct(st3, TokenType::SlashToken)
            }
        }
    }
}

pub open spec fn after_percent(st: LexState) -> (ScanModel, LexState) {
    let (m1, st1) = match_char(st, '=');
    if m1 {
        punct(st1, TokenType::PercentEqualsToken)
    } else {
        punct(st1, TokenType::PercentToken)
    }
}

pub open spec fn after_equals(st: LexState) -> (ScanModel, LexState) {
    let (m1, st1) = match_char(st, '=');
    if m1 {
        let (m2, st2) = match_char(st1, '=');
        if m2 {
            punct(st2, TokenType::EqualsEqualsEqualsToken)
        } else {
            punct(st2, TokenType::EqualsEqualsToken)
        }
    } else {
        let (m3, st3) = match_char(st1, '>');
        if m3 {
            punct(st3, TokenType::EqualsGreaterThanToken)
        } else {
            punct(st3, TokenType::EqualsToken)
        }
    }
}

pub open spec fn after_exclamation(st: LexState) -> (ScanModel, LexState) {
    let (m1, st1) = match_char(st, '=');
    if m1 {
        let (m2, st2) = match_char(st1, '=');
        if m2 {
            punct(st2, TokenType::ExclamationEqualsEqualsToken)
        } else {
            punct(st2, TokenType::ExclamationEqualsToken)
        }
    } else {
        punct(st1, TokenType::ExclamationToken)
    }
}

pub open spec fn after_question(st: LexState) -> (ScanModel, LexState) {
    let (m1, st1) = match_char(st, '?');
    if m1 {
        let (m2, st2) = match_char(st1, '=');
        if m2 {
            punct(st2, TokenType::QuestionQuestionEqualsToken)
        } else {
            punct(st2, TokenType::QuestionQuestionToken)
        }
    } else {
        let (m3, st3) = match_char(st1, '.');
        if m3 {
            punct(st3, TokenType::QuestionDotToken)
        } else {
            punct(st3, TokenType::QuestionToken)
        }
    }
}

pub open spec fn after_less(st: LexState) -> (ScanModel, LexState) {
    let (m1, st1) = match_char(st, '=');
    if m1 {
        punct(st1, TokenType::LessThanEqualsToken)
    } else {
        let (m2, st2) = match_char(st1, '/');
        if m2 {
            punct(st2, TokenType::LessThanSlashToken)
        } else {
            let (m3, st3) = match_char(st2, '<');
            if m3 {
                let (m4, st4) = match_char(st3, '=');
                if m4 {
                    punct(st4, TokenType::LessThanLessThanEqualsToken)
                } else {
                    punct(st4, TokenType::LessThanLessThanToken)
                }
            } else {
                punct(st3, TokenType::LessThanToken)
            }
        }
    }
}

pub open spec fn after_greater(st: LexState) -> (ScanModel, LexState) {
    let (m1, st1) = match_char(st, '=');
    if m1 {
        punct(st1, TokenType::GreaterThanEqualsToken)
    } else {
        let (m2, st2) = match_char(st1, '>');
        if m2 {
            let (m3, st3) = match_char(st2, '>');
            if m3 {
                let (m4, st4) = match_char(st3, '=');
                if m4 {
                    punct(st4, TokenType::GreaterThanGreaterThanGreaterThanEqualsToken)
                } else {
                    punct(st4, TokenType::GreaterThanGreaterThanGreaterThanToken)
                }
            } else {
                let (m5, st5) = match_char(st3, '=');
                if m5 {
                    punct(st5, TokenType::GreaterThanGreaterThanEqualsToken)
                } else {
                    punct(st5, TokenType::GreaterThanGreaterThanToken)
                }
            }
        } else {
            punct(st2, TokenType::GreaterThanToken)
        }
    }
}

pub open spec fn after_ampersand(st: LexState) -> (ScanModel, LexState) {
    let (m1, st1) = match_char(st, '=');
    if m1 {
        punct(st1, TokenType::AmpersandEqualsToken)
    } else {
        let (m2, st2) = match_char(st1, '&');
        if m2 {
            let (m3, st3) = match_char(st2, '=');
            if m3 {
                punct(st3, TokenType::AmpersandAmpersandEqualsToken)
            } else {
                punct(st3, TokenType::AmpersandAmpersandToken)
            }
        } else {
            punct(st2, TokenType::AmpersandToken)
        }
    }
}

pub open spec fn after_bar(st: LexState) -> (ScanModel, LexState) {
    let (m1, st1) = match_char(st, '=');
    if m1 {
        punct(st1, TokenType::BarEqualsToken)
    } else {
        let (m2, st2) = match_char(st1, '|');
        if m2 {
            let (m3, st3) = match_char(st2, '=');
            if m3 {
                punct(st3, TokenType::BarBarEqualsToken)
            } else {
                punct(st3, TokenType::BarBarToken)
            }
        } else {
            punct(st2, TokenType::BarToken)
        }
    }
}

pub open spec fn after_caret(st: LexState) -> (ScanModel, LexState) {
    let (m1, st1) = match_char(st, '=');
    if m1 {
        punct(st1, TokenType::CaretEqualsToken)
    } else {
        punct(st1, TokenType::CaretToken)
    }
}

/// The decimal digits other than zero: a literal may not begin with one.
pub open spec fn is_nonzero_digit(c: char) -> bool {
    c == '1' || c == '2' || c == '3' || c == '4' || c == '5' || c == '6' || c == '7' || c == '8'
        || c == '9'
}

/// One call of the scanner: the token start is pinned at `current + 1`; end
/// of input yields the end-of-file token; otherwise one character is
/// consumed and dispatched on.
pub open spec fn next_token(st0: LexState) -> (ScanModel, LexState) {
    let st = LexState { start: st0.current + 1, ..st0 };
    if st.at_end() {
        (Ok(token_at(st, TokenType::EndOfFile, None, None)), st)
    } else {
        let c = st.src[st.pos];
        let st1 = st.consumed();
        if c == ';' {
            punct(st1, TokenType::SemicolonToken)
        } else if c == '(' {
            punct(st1, TokenType::LeftParenToken)
        } else if c == ')' {
            punct(st1, TokenType::RightParenToken)
        } else if c == '{' {
            punct(st1, TokenType::LeftBraceToken)
        } else if c == '}' {
            punct(st1, TokenType::RightBraceToken)
        } else if c == '[' {
            punct(st1, TokenType::LeftBracketToken)
        } else if c == ']' {
            punct(st1, TokenType::RightBracketToken)
        } else if c == ',' {
            punct(st1, TokenType::CommaToken)
        } else if c == '~' {
            punct(st1, TokenType::TildeToken)
        } else if c == ':' {
            punct(st1, TokenType::ColonToken)
        } else if c == '@' {
            punct(st1, TokenType::AtToken)
        } else if c == '.' {
            after_dot(st1)
        } else if c == '+' {
            after_plus(st1)
        } else if c == '-' {
            after_minus(st1)
        } else if c == '*' {
            after_asterisk(st1)
        } else if c == '/' {
            after_slash(st1)
        } else if c == '%' {
            after_percent(st1)
        } else if c == '=' {
            after_equals(st1)
        } else if c == '!' {
            after_exclamation(st1)
        } else if c == '?' {
            after_question(st1)
        } else if c == '<' {
            after_less(st1)
        } else if c == '>' {
            after_greater(st1)
        } else if c == '&' {
            after_ampersand(st1)
        } else if c == '|' {
            after_bar(st1)
        } else if c == '^' {
            after_caret(st1)
        } else if c == '0' {
            numeric_starting_zero(st1)
        } else if is_nonzero_digit(c) {
            (Err(ErrorModel::InvalidNumber { line: st1.line, column: st1.start }), st1)
        } else {
            (Err(ErrorModel::UnexpectedCharacter { line: st1.line, column: st1.start }), st1)
        }
    }
}

/// Whether a scan result is the end-of-file token.
pub open spec fn is_eof_result(r: ScanModel) -> bool {
    match r {
        Ok(t) => t.token_type == TokenType::EndOfFile,
        Err(_) => false,
    }
}

/// Trivia skipping keeps the state well formed, never rewinds, and touches
/// neither the source nor the token start.
pub proof fn lemma_skip(st: LexState)
    requires
        st.wf(),
    ensures
        skip(st).wf(),
        skip(st).src == st.src,
        skip(st).start == st.start,
        skip(st).pos >= st.pos,
        skip(st).line >= st.line,
    decreases st.src.len() - st.pos,
{
    if !st.at_end() {
        let c = st.src[st.pos];
        if c == ' ' || c == '\r' || c == '\t' {
            lemma_skip(LexState { pos: st.pos + 1, current: st.current + 1, ..st });
        } else if c == '\n' {
            lemma_skip(LexState { pos: st.pos + 1, current: 1, line: st.line + 1, ..st });
        }
    }
}

/// The single-line comment body keeps the state well formed, consumes at
/// least the newline when one is hit, and leaves line, start and source
/// untouched.
pub proof fn lemma_line_comment_scan(st: LexState)
    requires
        st.wf(),
    ensures
        line_comment_scan(st).1.wf(),
        line_comment_scan(st).1.src == st.src,
        line_comment_scan(st).1.start == st.start,
        line_comment_scan(st).1.line == st.line,
        line_comment_scan(st).1.pos >= st.pos,
        line_comment_scan(st).0 ==> line_comment_scan(st).1.pos > st.pos,
        !line_comment_scan(st).0 ==> line_comment_scan(st).1.at_end(),
    decreases st.src.len() - st.pos,
{
    if !st.at_end() {
        let c = st.src[st.pos];
        if c != '\n' {
            lemma_line_comment_scan(st.consumed());
        }
    }
}

/// The block comment body keeps the state well formed, never rewinds, and
/// leaves start and source untouched; it errs exactly at end of input.
pub proof fn lemma_block_comment_scan(st: LexState, start_line: int)
    requires
        st.wf(),
    ensures
        block_comment_scan(st, start_line).1.wf(),
        block_comment_scan(st, start_line).1.src == st.src,
        block_comment_scan(st, start_line).1.start == st.start,
        block_comment_scan(st, start_line).1.pos >= st.pos,
        block_comment_scan(st, start_line).1.line >= st.line,
        block_comment_scan(st, start_line).0 is Some ==> block_comment_scan(
            st,
            start_line,
        ).1.at_end(),
    decreases st.src.len() - st.pos,
{
    if !st.at_end() {
        let c = st.src[st.pos];
        let st1 = st.consumed();
        if c == '\n' {
            lemma_block_comment_scan(
                LexState { current: 0, line: st1.line + 1, ..st1 },
                start_line,
            );
        } else if c == '*' {
            let (m, st2) = match_char(st1, '/');
            if !m {
                lemma_block_comment_scan(st2, start_line);
            }
        } else {
            lemma_block_comment_scan(st1, start_line);
        }
    }
}

/// The numeric tail keeps the state well formed (given one column of slack
/// for the error bump), never rewinds, and leaves line, start and source
/// untouched.
pub proof fn lemma_radix_tail(st: LexState, r: Radix)
    requires
        st.wf(),
        st.current + 1 <= 5 * st.pos,
    ensures
        radix_tail(st, r).1.wf(),
        radix_tail(st, r).1.src == st.src,
        radix_tail(st, r).1.start == st.start,
        radix_tail(st, r).1.line == st.line,
        radix_tail(st, r).1.pos >= st.pos,
    decreases st.src.len() - st.pos,
{
    if !st.at_end() {
        let c = st.src[st.pos];
        if !is_number_end(c) && is_radix_digit(r, c) {
            lemma_radix_tail(st.consumed(), r);
        }
    }
}

/// A prefixed literal keeps the state well formed, never rewinds, and never
/// yields the end-of-file token.
pub proof fn lemma_prefixed_literal(st: LexState, r: Radix)
    requires
        st.wf(),
        !st.at_end(),
        char_width(st.src[st.pos]) == 1,
    ensures
        prefixed_literal(st, r).1.wf(),
        prefixed_literal(st, r).1.src == st.src,
        prefixed_literal(st, r).1.pos >= st.pos,
        !is_eof_result(prefixed_literal(st, r).0),
{
    let st1 = advance(st).1;
    if !st1.at_end() && is_radix_digit(r, st1.src[st1.pos]) {
        lemma_radix_tail(st1.consumed(), r);
    }
}

/// One scanner call keeps the state well formed, consumes at least one
/// character unless the input is exhausted, and yields the end-of-file
/// token exactly at end of input.
pub proof fn lemma_next_token(st0: LexState)
    requires
        st0.wf(),
    ensures
        next_token(st0).1.wf(),
        next_token(st0).1.src == st0.src,
        next_token(st0).1.pos >= st0.pos,
        st0.at_end() ==> next_token(st0).1.pos == st0.pos,
        !st0.at_end() ==> next_token(st0).1.pos > st0.pos,
        is_eof_result(next_token(st0).0) <==> st0.at_end(),
{
    let st = LexState { start: st0.current + 1, ..st0 };
    if !st.at_end() {
        let c = st.src[st.pos];
        let st1 = st.consumed();
        if c == '/' {
            let (m1, sta) = match_char(st1, '/');
            if m1 {
                lemma_line_comment_scan(sta);
            } else {
                let (m2, stb) = match_char(sta, '*');
                if m2 {
                    let (mj, stc) = match_char(stb, '*');
                    lemma_block_comment_scan(stc, stb.line);
                }
            }
        } else if c == '0' {
            assert(char_width('0') == 1);
            if !st1.at_end() {
                let c2 = st1.src[st1.pos];
                if is_radix_digit(Radix::Decimal, c2) {
                    assert(char_width(c2) == 1);
                    lemma_radix_tail(advance(st1).1, Radix::Decimal);
                } else if c2 == 'b' || c2 == 'B' {
                    lemma_prefixed_literal(st1, Radix::Binary);
                } else if c2 == 'o' || c2 == 'O' {
                    lemma_prefixed_literal(st1, Radix::Octal);
                } else if c2 == 'x' || c2 == 'X' {
                    lemma_prefixed_literal(st1, Radix::Hexadecimal);
                }
            }
        }
    }
}

/// The whole scan: trivia, then one token or error, repeated until the
/// end-of-file token, which is not part of the yielded sequence.
pub open spec fn run(st: LexState) -> (Seq<ScanModel>, LexState)
    decreases st.src.len() - st.pos + 1
        when st.wf()
        via run_decreases
{
    let st1 = skip(st);
    let (r, st2) = next_token(st1);
    if is_eof_result(r) {
        (Seq::empty(), st2)
    } else {
        let (rest, st3) = run(st2);
        (seq![r] + rest, st3)
    }
}

#[via_fn]
proof fn run_decreases(st: LexState) {
    lemma_skip(st);
    lemma_next_token(skip(st));
}

} // verus!
