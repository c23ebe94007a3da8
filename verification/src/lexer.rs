//! The executable scanner.
//!
//! Each operation's contract ties it to the corresponding function of the
//! model in `crate::model`, so the scanner's behaviour on every input is
//! pinned down exactly.

use vstd::prelude::*;

use crate::error::LexerError;
use crate::model;
use crate::model::{LexState, Radix};
use crate::token::{StrSpan, Token, TokenType};

verus! {

/// The model value of one scan result.
pub open spec fn res_model(r: Result<Token, LexerError>) -> model::ScanModel {
    match r {
        Ok(t) => Ok(t@),
        Err(e) => Err(e@),
    }
}

/// The model values of a sequence of scan results.
pub open spec fn results_model(s: Seq<Result<Token, LexerError>>) -> Seq<model::ScanModel> {
    s.map_values(|r: Result<Token, LexerError>| res_model(r))
}

/// The scanner: the source as a character sequence, the index of the next
/// unconsumed character, and the cursor's three position counters.
#[derive(Debug)]
pub struct Lexer {
    source: Vec<char>,
    pos: usize,
    line: usize,
    start: usize,
    current: usize,
}

impl View for Lexer {
    type V = LexState;

    closed spec fn view(&self) -> LexState {
        LexState {
            src: self.source@,
            pos: self.pos as int,
            line: self.line as int,
            start: self.start as int,
            current: self.current as int,
        }
    }
}

/// The number of bytes the UTF-8 encoding of `c` occupies.
fn utf8_width(c: char) -> (w: usize)
    ensures
        w == model::char_width(c),
{
    let u: u32 = c as u32;
    if u < 0x80 {
        1
    } else if u < 0x800 {
        2
    } else if u < 0x10000 {
        3
    } else {
        4
    }
}

impl Lexer {
    /// A fresh scanner over `source`, positioned before its first character.
    ///
    /// The length bound keeps every position counter below `usize::MAX`
    /// throughout the scan.
    pub fn new(source: &str) -> (l: Lexer)
        requires
            8 * source@.len() <= usize::MAX,
        ensures
            l@ == LexState::init(source@),
    {
        let n: usize = source.unicode_len();
        let mut chars: Vec<char> = Vec::new();
        let mut i: usize = 0;
        while i < n
            invariant
                i <= n,
                n == source@.len(),
                chars@ == source@.subrange(0, i as int),
            decreases n - i,
        {
            chars.push(source.get_char(i));
            proof {
                assert(chars@ =~= source@.subrange(0, i + 1));
            }
            i = i + 1;
        }
        proof {
            assert(chars@ =~= source@);
        }
        Lexer { source: chars, pos: 0, line: 1, start: 0, current: 0 }
    }

    /// Consumes a maximal run of whitespace trivia, counting columns and
    /// lines as the model's `skip` prescribes.
    pub fn skip(&mut self)
        requires
            old(self)@.wf(),
        ensures
            final(self)@ == model::skip(old(self)@),
            final(self)@.wf(),
    {
        loop
            invariant
                self@.wf(),
                model::skip(self@) == model::skip(old(self)@),
            ensures
                self@.wf(),
                self@ == model::skip(old(self)@),
            decreases self@.src.len() - self@.pos,
        {
            if self.pos >= self.source.len() {
                break ;
            }
            let c = self.source[self.pos];
            if c == ' ' || c == '\r' || c == '\t' {
                self.current = self.current + 1;
                self.pos = self.pos + 1;
            } else if c == '\n' {
                self.current = 1;
                self.line = self.line + 1;
                self.pos = self.pos + 1;
            } else {
                break ;
            }
        }
    }

    /// Consumes and returns the next character, advancing the running
    /// column by its encoded width; returns nothing at end of input.
    pub fn advance(&mut self) -> (r: Option<char>)
        requires
            old(self)@.wf(),
        ensures
            r == model::advance(old(self)@).0,
            final(self)@ == model::advance(old(self)@).1,
            final(self)@.wf(),
    {
        if self.pos < self.source.len() {
            let c = self.source[self.pos];
            self.pos = self.pos + 1;
            self.current = self.current + utf8_width(c);
            Some(c)
        } else {
            None
        }
    }

    /// Consumes the next character exactly when it equals `expected`; the
    /// sole building block of multi-character lookahead.
    pub fn match_char(&mut self, expected: char) -> (r: bool)
        requires
            old(self)@.wf(),
        ensures
            r == model::match_char(old(self)@, expected).0,
            final(self)@ == model::match_char(old(self)@, expected).1,
            final(self)@.wf(),
    {
        if self.pos < self.source.len() && self.source[self.pos] == expected {
            self.pos = self.pos + 1;
            self.current = self.current + utf8_width(expected);
            true
        } else {
            false
        }
    }

    /// Builds a token spanning from the recorded token start to one past the
    /// running column, on the current line.
    pub fn new_token(
        &self,
        token_type: TokenType,
        lexeme: Option<StrSpan>,
        literal_value: Option<StrSpan>,
    ) -> (t: Token)
        requires
            self@.wf(),
        ensures
            t@ == model::token_at(
                self@,
                token_type,
                crate::token::span_model(lexeme),
                crate::token::span_model(literal_value),
            ),
    {
        Token::new(token_type, self.line, self.start, self.current + 1, lexeme, literal_value)
    }

    /// Scans the rest of a single-line comment, both leading slashes already
    /// consumed.  The token's lexeme excludes them.
    fn scan_line_comment(&mut self) -> (t: Token)
        requires
            old(self)@.wf(),
        ensures
            model::line_comment(old(self)@).0 == Ok::<_, crate::error::ErrorModel>(t@),
            final(self)@ == model::line_comment(old(self)@).1,
            final(self)@.wf(),
    {
        loop
            invariant_except_break
                self@.wf(),
                model::line_comment_scan(self@) == model::line_comment_scan(old(self)@),
            ensures
                self@.wf(),
                model::line_comment_scan(old(self)@) == (true, self@),
            decreases self@.src.len() - self@.pos,
        {
            let copt = self.advance();
            match copt {
                None => {
                    return self.new_token(
                        TokenType::MultiLineCommentTrivia,
                        Some(StrSpan { start: self.start + 2, end: self.current + 1 }),
                        Some(StrSpan { start: self.start, end: self.current + 1 }),
                    );
                },
                Some(c) => {
                    if c == '\n' {
                        break ;
                    }
                },
            }
        }
        proof {
            model::lemma_line_comment_scan(old(self)@);
        }
        let t = self.new_token(
            TokenType::MultiLineCommentTrivia,
            Some(StrSpan { start: self.start + 2, end: self.current + 1 }),
            Some(StrSpan { start: self.start, end: self.current + 1 }),
        );
        self.line = self.line + 1;
        self.current = 0;
        t
    }

    /// Scans the rest of a block comment, `/*` already consumed.  A third
    /// `*` right away classifies it as a documentation comment.
    fn scan_block_comment(&mut self) -> (r: Result<Token, LexerError>)
        requires
            old(self)@.wf(),
        ensures
            res_model(r) == model::block_comment(old(self)@).0,
            final(self)@ == model::block_comment(old(self)@).1,
            final(self)@.wf(),
    {
        let start_line: usize = self.line;
        let is_jsdoc = self.match_char('*');
        let ghost entered = self@;
        loop
            invariant_except_break
                self@.wf(),
                model::block_comment_scan(self@, start_line as int) == model::block_comment_scan(
                    entered,
                    start_line as int,
                ),
            invariant
                old(self)@.wf(),
                entered.wf(),
                entered == model::match_char(old(self)@, '*').1,
                is_jsdoc == model::match_char(old(self)@, '*').0,
                start_line as int == old(self)@.line,
            ensures
                self@.wf(),
                model::block_comment_scan(entered, start_line as int) == (
                    None::<crate::error::ErrorModel>,
                    self@,
                ),
            decreases self@.src.len() - self@.pos,
        {
            let copt = self.advance();
            match copt {
                None => {
                    return Err(
                        LexerError::CommentNotTerminated {
                            line: start_line,
                            column: self.current,
                        },
                    );
                },
                Some(c) => {
                    if c == '\n' {
                        self.current = 0;
                        self.line = self.line + 1;
                    } else if c == '*' {
                        if self.match_char('/') {
                            break ;
                        }
                    }
                },
            }
        }
        if is_jsdoc {
            Ok(
                Token::new(
                    TokenType::JSDoc,
                    start_line,
                    self.start,
                    self.current,
                    Some(StrSpan { start: self.start + 3, end: self.current }),
                    Some(StrSpan { start: self.start, end: self.current }),
                ),
            )
        } else {
            Ok(
                Token::new(
                    TokenType::MultiLineCommentTrivia,
                    start_line,
                    self.start,
                    self.current,
                    Some(StrSpan { start: self.start + 2, end: self.current }),
                    Some(StrSpan { start: self.start, end: self.current }),
                ),
            )
        }
    }

    /// Scans a binary literal, entered with the `0` consumed and the
    /// `b` prefix at the cursor.
    fn binary(&mut self) -> (r: Result<Token, LexerError>)
        requires
            old(self)@.wf(),
            old(self)@.current + 3 <= 5 * old(self)@.pos,
        ensures
            res_model(r) == model::prefixed_literal(old(self)@, Radix::Binary).0,
            final(self)@ == model::prefixed_literal(old(self)@, Radix::Binary).1,
            final(self)@.wf(),
    {
        let _ = self.advance();
        if self.pos >= self.source.len() {
            return Err(LexerError::InvalidNumber { line: self.line, column: self.start });
        }
        let next_c = self.source[self.pos];
        match next_c {
            '0' | '1' => {
                let _ = self.advance();
                let ghost entered = self@;
                loop
                    invariant_except_break
                        self@.wf(),
                        self@.current + 1 <= 5 * self@.pos,
                        model::radix_tail(self@, Radix::Binary) == model::radix_tail(
                            entered,
                            Radix::Binary,
                        ),
                    invariant
                        entered.wf(),
                        old(self)@.wf(),
                        !model::advance(old(self)@).1.at_end(),
                        model::is_radix_digit(
                            Radix::Binary,
                            model::advance(old(self)@).1.src[model::advance(old(self)@).1.pos],
                        ),
                        entered == model::advance(old(self)@).1.consumed(),
                    ensures
                        self@.wf(),
                        model::radix_tail(entered, Radix::Binary) == (
                            None::<crate::error::ErrorModel>,
                            self@,
                        ),
                    decreases self@.src.len() - self@.pos,
                {
                    if self.pos >= self.source.len() {
                        return Ok(
                            self.new_token(
                                TokenType::NumericLiteral,
                                Some(StrSpan { start: self.start, end: self.current + 1 }),
                                Some(StrSpan { start: self.start, end: self.current + 1 }),
                            ),
                        );
                    }
                    let d = self.source[self.pos];
                    match d {
                        ' ' | '\n' | '\r' | '\t' | ';' => {
                            break ;
                        },
                        '0' | '1' => {
                            let _ = self.advance();
                        },
                        _ => {
                            self.current = self.current + 1;
                            return Err(
                                LexerError::InvalidNumber { line: self.line, column: self.current },
                            );
                        },
                    }
                }
                Ok(
                    self.new_token(
                        TokenType::NumericLiteral,
                        Some(StrSpan { start: self.start, end: self.current + 1 }),
                        Some(StrSpan { start: self.start, end: self.current + 1 }),
                    ),
                )
            },
            _ => Err(LexerError::InvalidNumber { line: self.line, column: self.start }),
        }
    }

    /// Scans a octal literal, entered with the `0` consumed and the
    /// `o` prefix at the cursor.
    fn octal(&mut self) -> (r: Result<Token, LexerError>)
        requires
            old(self)@.wf(),
            old(self)@.current + 3 <= 5 * old(self)@.pos,
        ensures
            res_model(r) == model::prefixed_literal(old(self)@, Radix::Octal).0,
            final(self)@ == model::prefixed_literal(old(self)@, Radix::Octal).1,
            final(self)@.wf(),
    {
        let _ = self.advance();
        if self.pos >= self.source.len() {
            return Err(LexerError::InvalidNumber { line: self.line, column: self.start });
        }
        let next_c = self.source[self.pos];
        match next_c {
            '0' | '1' | '2' | '3' | '4' | '5' | '6' | '7' => {
                let _ = self.advance();
                let ghost entered = self@;
                loop
                    invariant_except_break
                        self@.wf(),
                        self@.current + 1 <= 5 * self@.pos,
                        model::radix_tail(self@, Radix::Octal) == model::radix_tail(
                            entered,
                            Radix::Octal,
                        ),
                    invariant
                        entered.wf(),
                        old(self)@.wf(),
                        !model::advance(old(self)@).1.at_end(),
                        model::is_radix_digit(
                            Radix::Octal,
                            model::advance(old(self)@).1.src[model::advance(old(self)@).1.pos],
                        ),
                        entered == model::advance(old(self)@).1.consumed(),
                    ensures
                        self@.wf(),
                        model::radix_tail(entered, Radix::Octal) == (
                            None::<crate::error::ErrorModel>,
                            self@,
                        ),
                    decreases self@.src.len() - self@.pos,
                {
                    if self.pos >= self.source.len() {
                        return Ok(
                            self.new_token(
                                TokenType::NumericLiteral,
                                Some(StrSpan { start: self.start, end: self.current + 1 }),
                                Some(StrSpan { start: self.start, end: self.current + 1 }),
                            ),
                        );
                    }
                    let d = self.source[self.pos];
                    match d {
                        ' ' | '\n' | '\r' | '\t' | ';' => {
                            break ;
                        },
                        '0' | '1' | '2' | '3' | '4' | '5' | '6' | '7' => {
                            let _ = self.advance();
                        },
                        _ => {
                            self.current = self.current + 1;
                            return Err(
                                LexerError::InvalidNumber { line: self.line, column: self.current },
                            );
                        },
                    }
                }
                Ok(
                    self.new_token(
                        TokenType::NumericLiteral,
                        Some(StrSpan { start: self.start, end: self.current + 1 }),
                        Some(StrSpan { start: self.start, end: self.current + 1 }),
                    ),
                )
            },
            _ => Err(LexerError::InvalidNumber { line: self.line, column: self.start }),
        }
    }

    /// Scans a plain decimal continuation, entered with the `0` consumed and
    /// a further decimal digit at the cursor.  A `b` is accepted as a
    /// terminator and consumed.
    fn decimal(&mut self) -> (r: Result<Token, LexerError>)
        requires
            old(self)@.wf(),
            old(self)@.current + 3 <= 5 * old(self)@.pos,
        ensures
            res_model(r) == model::decimal_literal(old(self)@).0,
            final(self)@ == model::decimal_literal(old(self)@).1,
            final(self)@.wf(),
    {
        let _ = self.advance();
        let ghost entered = self@;
        loop
            invariant_except_break
                self@.wf(),
                self@.current + 1 <= 5 * self@.pos,
                model::radix_tail(self@, Radix::Decimal) == model::radix_tail(
                    entered,
                    Radix::Decimal,
                ),
            invariant
                entered.wf(),
                old(self)@.wf(),
                entered == model::advance(old(self)@).1,
            ensures
                self@.wf(),
                model::radix_tail(entered, Radix::Decimal) == (
                    None::<crate::error::ErrorModel>,
                    self@,
                ),
            decreases self@.src.len() - self@.pos,
        {
            if self.pos >= self.source.len() {
                return Ok(
                    self.new_token(
                        TokenType::NumericLiteral,
                        Some(StrSpan { start: self.start, end: self.current + 1 }),
                        Some(StrSpan { start: self.start, end: self.current + 1 }),
                    ),
                );
            }
            let d = self.source[self.pos];
            match d {
                ' ' | '\n' | '\r' | '\t' | ';' => {
                    break ;
                },
                '0' | '1' | '2' | '3' | '4' | '5' | '6' | '7' | '8' | '9' => {
                    let _ = self.advance();
                },
                'b' => {
                    let _ = self.advance();
                    break ;
                },
                _ => {
                    self.current = self.current + 1;
                    return Err(
                        LexerError::InvalidNumber { line: self.line, column: self.current },
                    );
                },
            }
        }
        Ok(
            self.new_token(
                TokenType::NumericLiteral,
                Some(StrSpan { start: self.start, end: self.current + 1 }),
                Some(StrSpan { start: self.start, end: self.current + 1 }),
            ),
        )
    }

    /// Scans a hexadecimal literal, entered with the `0` consumed and the
    /// `x` prefix at the cursor.
    fn hexadecimal(&mut self) -> (r: Result<Token, LexerError>)
        requires
            old(self)@.wf(),
            old(self)@.current + 3 <= 5 * old(self)@.pos,
        ensures
            res_model(r) == model::prefixed_literal(old(self)@, Radix::Hexadecimal).0,
            final(self)@ == model::prefixed_literal(old(self)@, Radix::Hexadecimal).1,
            final(self)@.wf(),
    {
        let _ = self.advance();
        if self.pos >= self.source.len() {
            return Err(LexerError::InvalidNumber { line: self.line, column: self.start });
        }
        let next_c = self.source[self.pos];
        match next_c {
            '0' | '1' | '2' | '3' | '4' | '5' | '6' | '7' | '8' | '9' | 'a' | 'b' | 'c' | 'd'
            | 'e' | 'f' | 'A' | 'B' | 'C' | 'D' | 'E' | 'F' => {
                let _ = self.advance();
                let ghost entered = self@;
                loop
                    invariant_except_break
                        self@.wf(),
                        self@.current + 1 <= 5 * self@.pos,
                        model::radix_tail(self@, Radix::Hexadecimal) == model::radix_tail(
                            entered,
                            Radix::Hexadecimal,
                        ),
                    invariant
                        entered.wf(),
                        old(self)@.wf(),
                        !model::advance(old(self)@).1.at_end(),
                        model::is_radix_digit(
                            Radix::Hexadecimal,
                            model::advance(old(self)@).1.src[model::advance(old(self)@).1.pos],
                        ),
                        entered == model::advance(old(self)@).1.consumed(),
                    ensures
                        self@.wf(),
                        model::radix_tail(entered, Radix::Hexadecimal) == (
                            None::<crate::error::ErrorModel>,
                            self@,
                        ),
                    decreases self@.src.len() - self@.pos,
                {
                    if self.pos >= self.source.len() {
                        return Ok(
                            self.new_token(
                                TokenType::NumericLiteral,
                                Some(StrSpan { start: self.start, end: self.current + 1 }),
                                Some(StrSpan { start: self.start, end: self.current + 1 }),
                            ),
                        );
                    }
                    let d = self.source[self.pos];
                    match d {
                        ' ' | '\n' | '\r' | '\t' | ';' => {
                            break ;
                        },
                        '0' | '1' | '2' | '3' | '4' | '5' | '6' | '7' | '8' | '9' | 'a' | 'b'
                        | 'c' | 'd' | 'e' | 'f' | 'A' | 'B' | 'C' | 'D' | 'E' | 'F' => {
                            let _ = self.advance();
                        },
                        _ => {
                            self.current = self.current + 1;
                            return Err(
                                LexerError::InvalidNumber { line: self.line, column: self.current },
                            );
                        },
                    }
                }
                Ok(
                    self.new_token(
                        TokenType::NumericLiteral,
                        Some(StrSpan { start: self.start, end: self.current + 1 }),
                        Some(StrSpan { start: self.start, end: self.current + 1 }),
                    ),
                )
            },
            _ => Err(LexerError::InvalidNumber { line: self.line, column: self.start }),
        }
    }

    /// Dispatches a numeric literal after its leading `0`: a further digit
    /// continues as decimal, a prefix letter selects binary, octal or
    /// hexadecimal, and anything else leaves a bare `0` token.
    fn numeric_literal_starting_0(&mut self) -> (r: Result<Token, LexerError>)
        requires
            old(self)@.wf(),
            old(self)@.current + 3 <= 5 * old(self)@.pos,
        ensures
            res_model(r) == model::numeric_starting_zero(old(self)@).0,
            final(self)@ == model::numeric_starting_zero(old(self)@).1,
            final(self)@.wf(),
    {
        if self.pos >= self.source.len() {
            return Ok(
                self.new_token(
                    TokenType::NumericLiteral,
                    Some(StrSpan { start: self.start, end: self.current }),
                    Some(StrSpan { start: self.start, end: self.current }),
                ),
            );
        }
        let start_char = self.source[self.pos];
        match start_char {
            '0' | '1' | '2' | '3' | '4' | '5' | '6' | '7' | '8' | '9' => self.decimal(),
            'b' | 'B' => self.binary(),
            'o' | 'O' => self.octal(),
            'x' | 'X' => self.hexadecimal(),
            _ => Ok(
                self.new_token(
                    TokenType::NumericLiteral,
                    Some(StrSpan { start: self.start, end: self.current }),
                    Some(StrSpan { start: self.start, end: self.current }),
                ),
            ),
        }
    }
    /// Scans one token: pins the token start, consumes one character and
    /// dispatches on it.  At end of input the end-of-file token is returned
    /// and the state is left in place, so further calls keep yielding it.
    pub fn next_token(&mut self) -> (r: Result<Token, LexerError>)
        requires
            old(self)@.wf(),
        ensures
            res_model(r) == model::next_token(old(self)@).0,
            final(self)@ == model::next_token(old(self)@).1,
            final(self)@.wf(),
    {
        self.start = self.current + 1;
        let copt = self.advance();
        let c = match copt {
            Some(c) => c,
            None => {
                return Ok(self.new_token(TokenType::EndOfFile, None, None));
            },
        };
        match c {
            ';' => Ok(self.new_token(TokenType::SemicolonToken, None, None)),
            '(' => Ok(self.new_token(TokenType::LeftParenToken, None, None)),
            ')' => Ok(self.new_token(TokenType::RightParenToken, None, None)),
            '{' => Ok(self.new_token(TokenType::LeftBraceToken, None, None)),
            '}' => Ok(self.new_token(TokenType::RightBraceToken, None, None)),
            '[' => Ok(self.new_token(TokenType::LeftBracketToken, None, None)),
            ']' => Ok(self.new_token(TokenType::RightBracketToken, None, None)),
            ',' => Ok(self.new_token(TokenType::CommaToken, None, None)),
            '~' => Ok(self.new_token(TokenType::TildeToken, None, None)),
            ':' => Ok(self.new_token(TokenType::ColonToken, None, None)),
            '@' => Ok(self.new_token(TokenType::AtToken, None, None)),
            '.' => {
                if self.match_char('.') {
                    if self.match_char('.') {
                        Ok(self.new_token(TokenType::DotDotDotToken, None, None))
                    } else {
                        Err(
                            LexerError::UnexpectedCharacter {
                                line: self.line,
                                column: self.current + 1,
                            },
                        )
                    }
                } else {
                    Ok(self.new_token(TokenType::DotToken, None, None))
                }
            },
            '+' => {
                if self.match_char('+') {
                    Ok(self.new_token(TokenType::PlusPlusToken, None, None))
                } else if self.match_char('=') {
                    Ok(self.new_token(TokenType::PlusEqualsToken, None, None))
                } else {
                    Ok(self.new_token(TokenType::PlusToken, None, None))
                }
            },
            '-' => {
                if self.match_char('-') {
                    Ok(self.new_token(TokenType::MinusMinusToken, None, None))
                } else if self.match_char('=') {
                    Ok(self.new_token(TokenType::MinusEqualsToken, None, None))
                } else {
                    Ok(self.new_token(TokenType::MinusToken, None, None))
                }
            },
            '*' => {
                if self.match_char('=') {
                    Ok(self.new_token(TokenType::AsteriskEqualsToken, None, None))
                } else if self.match_char('*') {
                    if self.match_char('=') {
                        Ok(self.new_token(TokenType::AsteriskAsteriskEqualsToken, None, None))
                    } else {
                        Ok(self.new_token(TokenType::AsteriskAsteriskToken, None, None))
                    }
                } else {
                    Ok(self.new_token(TokenType::AsteriskToken, None, None))
                }
            },
            '/' => {
                if self.match_char('/') {
                    Ok(self.scan_line_comment())
                } else if self.match_char('*') {
                    self.scan_block_comment()
                } else if self.match_char('=') {
                    Ok(self.new_token(TokenType::SlashEqualsToken, None, None))
                } else {
                    Ok(self.new_token(TokenType::SlashToken, None, None))
                }
            },
            '%' => {
                if self.match_char('=') {
                    Ok(self.new_token(TokenType::PercentEqualsToken, None, None))
                } else {
                    Ok(self.new_token(TokenType::PercentToken, None, None))
                }
            },
            '=' => {
                if self.match_char('=') {
                    if self.match_char('=') {
                        Ok(self.new_token(TokenType::EqualsEqualsEqualsToken, None, None))
                    } else {
                        Ok(self.new_token(TokenType::EqualsEqualsToken, None, None))
                    }
                } else if self.match_char('>') {
                    Ok(self.new_token(TokenType::EqualsGreaterThanToken, None, None))
                } else {
                    Ok(self.new_token(TokenType::EqualsToken, None, None))
                }
            },
            '!' => {
                if self.match_char('=') {
                    if self.match_char('=') {
                        Ok(self.new_token(TokenType::ExclamationEqualsEqualsToken, None, None))
                    } else {
                        Ok(self.new_token(TokenType::ExclamationEqualsToken, None, None))
                    }
                } else {
                    Ok(self.new_token(TokenType::ExclamationToken, None, None))
                }
            },
            '?' => {
                if self.match_char('?') {
                    if self.match_char('=') {
                        Ok(self.new_token(TokenType::QuestionQuestionEqualsToken, None, None))
                    } else {
                        Ok(self.new_token(TokenType::QuestionQuestionToken, None, None))
                    }
                } else if self.match_char('.') {
                    Ok(self.new_token(TokenType::QuestionDotToken, None, None))
                } else {
                    Ok(self.new_token(TokenType::QuestionToken, None, None))
                }
            },
            '<' => {
                if self.match_char('=') {
                    Ok(self.new_token(TokenType::LessThanEqualsToken, None, None))
                } else if self.match_char('/') {
                    Ok(self.new_token(TokenType::LessThanSlashToken, None, None))
                } else if self.match_char('<') {
                    if self.match_char('=') {
                        Ok(self.new_token(TokenType::LessThanLessThanEqualsToken, None, None))
                    } else {
                        Ok(self.new_token(TokenType::LessThanLessThanToken, None, None))
                    }
                } else {
                    Ok(self.new_token(TokenType::LessThanToken, None, None))
                }
            },
            '>' => {
                if self.match_char('=') {
                    Ok(self.new_token(TokenType::GreaterThanEqualsToken, None, None))
                } else if self.match_char('>') {
                    if self.match_char('>') {
                        if self.match_char('=') {
                            Ok(
                                self.new_token(
                                    TokenType::GreaterThanGreaterThanGreaterThanEqualsToken,
                                    None,
                                    None,
                                ),
                            )
                        } else {
                            Ok(
                                self.new_token(
                                    TokenType::GreaterThanGreaterThanGreaterThanToken,
                                    None,
                                    None,
                                ),
                            )
                        }
                    } else if self.match_char('=') {
                        Ok(self.new_token(TokenType::GreaterThanGreaterThanEqualsToken, None, None))
                    } else {
                        Ok(self.new_token(TokenType::GreaterThanGreaterThanToken, None, None))
                    }
                } else {
                    Ok(self.new_token(TokenType::GreaterThanToken, None, None))
                }
            },
            '&' => {
                if self.match_char('=') {
                    Ok(self.new_token(TokenType::AmpersandEqualsToken, None, None))
                } else if self.match_char('&') {
                    if self.match_char('=') {
                        Ok(self.new_token(TokenType::AmpersandAmpersandEqualsToken, None, None))
                    } else {
                        Ok(self.new_token(TokenType::AmpersandAmpersandToken, None, None))
                    }
                } else {
                    Ok(self.new_token(TokenType::AmpersandToken, None, None))
                }
            },
            '|' => {
                if self.match_char('=') {
                    Ok(self.new_token(TokenType::BarEqualsToken, None, None))
                } else if self.match_char('|') {
                    if self.match_char('=') {
                        Ok(self.new_token(TokenType::BarBarEqualsToken, None, None))
                    } else {
                        Ok(self.new_token(TokenType::BarBarToken, None, None))
                    }
                } else {
                    Ok(self.new_token(TokenType::BarToken, None, None))
                }
            },
            '^' => {
                if self.match_char('=') {
                    Ok(self.new_token(TokenType::CaretEqualsToken, None, None))
                } else {
                    Ok(self.new_token(TokenType::CaretToken, None, None))
                }
            },
            '0' => self.numeric_literal_starting_0(),
            '1' | '2' | '3' | '4' | '5' | '6' | '7' | '8' | '9' => Err(
                LexerError::InvalidNumber { line: self.line, column: self.start },
            ),
            _ => Err(LexerError::UnexpectedCharacter { line: self.line, column: self.start }),
        }
    }

    /// Runs the scanner over the rest of the input: skips trivia, scans one
    /// token or error, and repeats, collecting every result in order until
    /// the end-of-file token, which is not part of the sequence.  Errors do
    /// not stop the scan.
    pub fn lex(&mut self) -> (r: Vec<Result<Token, LexerError>>)
        requires
            old(self)@.wf(),
        ensures
            results_model(r@) == model::run(old(self)@).0,
            final(self)@ == model::run(old(self)@).1,
            final(self)@.wf(),
    {
        let mut out: Vec<Result<Token, LexerError>> = Vec::new();
        let mut done = false;
        proof {
            assert(results_model(out@) =~= Seq::<model::ScanModel>::empty());
        }
        while !done
            invariant
                self@.wf(),
                old(self)@.wf(),
                model::run(old(self)@).0 == results_model(out@) + (if done {
                    Seq::<model::ScanModel>::empty()
                } else {
                    model::run(self@).0
                }),
                model::run(old(self)@).1 == (if done {
                    self@
                } else {
                    model::run(self@).1
                }),
            decreases self@.src.len() - self@.pos + (if done {
                0int
            } else {
                1int
            }),
        {
            let ghost before = self@;
            self.skip();
            proof {
                model::lemma_skip(before);
                model::lemma_next_token(self@);
            }
            let r = self.next_token();
            let is_end = match &r {
                Ok(t) => t.token_type == TokenType::EndOfFile,
                Err(_) => false,
            };
            if is_end {
                done = true;
            } else {
                let ghost out_prev = out@;
                out.push(r);
                proof {
                    assert(results_model(out@) =~= results_model(out_prev) + seq![res_model(r)]);
                }
            }
        }
        out
    }

    /// The full token stream of the remaining input, as `lex` yields it.
    pub fn process(&mut self) -> (r: Vec<Result<Token, LexerError>>)
        requires
            old(self)@.wf(),
        ensures
            results_model(r@) == model::run(old(self)@).0,
            final(self)@ == model::run(old(self)@).1,
            final(self)@.wf(),
    {
        self.lex()
    }
}

} // verus!
