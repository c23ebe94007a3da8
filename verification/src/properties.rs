//! Proved properties of the scanner, stated over the model.
//!
//! Each proof function here is part of the library's statement: it records a
//! guarantee the scanner gives beyond the per-operation contracts in
//! `crate::lexer`.

use vstd::prelude::*;

use crate::error::ErrorModel;
use crate::model::{
    block_comment_scan, is_eof_result, lemma_next_token, lemma_skip, match_char, next_token, run,
    skip, LexState, ScanModel,
};
use crate::token::{TokenModel, TokenType};

verus! {

/// Requesting a token at end of input yields the end-of-file token and moves
/// nothing, so the state is a fixpoint: asking again yields the very same
/// end-of-file token.
pub proof fn lemma_end_of_input_idempotent(st: LexState)
    requires
        st.wf(),
        st.at_end(),
    ensures
        is_eof_result(next_token(st).0),
        next_token(next_token(st).1).0 == next_token(st).0,
        next_token(next_token(st).1).1 == next_token(st).1,
{
}

/// The eleven single-character punctuation marks.
pub open spec fn is_single_punct(c: char) -> bool {
    c == ';' || c == '(' || c == ')' || c == '{' || c == '}' || c == '[' || c == ']' || c == ','
        || c == '~' || c == ':' || c == '@'
}

/// The token kind each single-character punctuation mark scans to.
pub open spec fn single_punct_kind(c: char) -> TokenType {
    if c == ';' {
        TokenType::SemicolonToken
    } else if c == '(' {
        TokenType::LeftParenToken
    } else if c == ')' {
        TokenType::RightParenToken
    } else if c == '{' {
        TokenType::LeftBraceToken
    } else if c == '}' {
        TokenType::RightBraceToken
    } else if c == '[' {
        TokenType::LeftBracketToken
    } else if c == ']' {
        TokenType::RightBracketToken
    } else if c == ',' {
        TokenType::CommaToken
    } else if c == '~' {
        TokenType::TildeToken
    } else if c == ':' {
        TokenType::ColonToken
    } else {
        TokenType::AtToken
    }
}

/// Scanning a source holding exactly one punctuation character yields
/// exactly one token, of the matching kind, and then only end of file.
pub proof fn lemma_single_punctuation(c: char)
    requires
        is_single_punct(c),
    ensures
        run(LexState::init(seq![c])).0 == seq![
            Ok::<TokenModel, ErrorModel>(
                TokenModel {
                    token_type: single_punct_kind(c),
                    line: 1,
                    start: 1,
                    end: 2,
                    lexeme: None,
                    literal_value: None,
                },
            ),
        ],
        run(LexState::init(seq![c])).1.at_end(),
{
    let st = LexState::init(seq![c]);
    let (r, st2) = next_token(st);
    assert(skip(st) == st);
    assert(run(st2).0 =~= Seq::<ScanModel>::empty());
    assert(run(st).0 =~= seq![r] + run(st2).0);
    assert(run(st).0 =~= seq![
        Ok::<TokenModel, ErrorModel>(
            TokenModel {
                token_type: single_punct_kind(c),
                line: 1,
                start: 1,
                end: 2,
                lexeme: None,
                literal_value: None,
            },
        ),
    ]);
}

/// The position reached after each scan result of a whole run, ending with
/// the position at which the end-of-file token was produced.  The chunk of
/// source a result consumed — its skipped trivia followed by its own text —
/// lies between two successive cut positions.
pub open spec fn run_cuts(st: LexState) -> Seq<int>
    decreases st.src.len() - st.pos + 1
        when st.wf()
        via run_cuts_decreases
{
    let st1 = skip(st);
    let (r, st2) = next_token(st1);
    if is_eof_result(r) {
        seq![st2.pos]
    } else {
        seq![st2.pos] + run_cuts(st2)
    }
}

#[via_fn]
proof fn run_cuts_decreases(st: LexState) {
    lemma_skip(st);
    lemma_next_token(skip(st));
}

/// The chunks of `src` between `from` and each successive cut position, in
/// order, as one sequence.
pub open spec fn pieces(src: Seq<char>, from: int, cuts: Seq<int>) -> Seq<char>
    decreases cuts.len(),
{
    if cuts.len() == 0 {
        Seq::empty()
    } else {
        src.subrange(from, cuts[0]) + pieces(src, cuts[0], cuts.drop_first())
    }
}

/// Round trip: a whole run makes a single forward pass that consumes every
/// remaining character exactly once, so the chunks consumed for successive
/// scan results, concatenated in order, give back the remaining source
/// exactly.  There is one cut per yielded result plus the final one at end
/// of input.
pub proof fn lemma_round_trip(st: LexState)
    requires
        st.wf(),
    ensures
        pieces(st.src, st.pos, run_cuts(st)) == st.src.subrange(st.pos, st.src.len() as int),
        run_cuts(st).len() == run(st).0.len() + 1,
        run(st).1.at_end(),
    decreases st.src.len() - st.pos + 1,
{
    lemma_skip(st);
    lemma_next_token(skip(st));
    let st1 = skip(st);
    let (r, st2) = next_token(st1);
    if is_eof_result(r) {
        assert(st2.pos == st.src.len());
        assert(run_cuts(st) == seq![st2.pos]);
        assert(run_cuts(st).drop_first() =~= Seq::<int>::empty());
        assert(pieces(st.src, st2.pos, run_cuts(st).drop_first()) =~= Seq::<char>::empty());
        assert(pieces(st.src, st.pos, run_cuts(st)) =~= st.src.subrange(
            st.pos,
            st.src.len() as int,
        ));
        assert(run(st).0 =~= Seq::<ScanModel>::empty());
    } else {
        lemma_round_trip(st2);
        assert(run_cuts(st).drop_first() =~= run_cuts(st2));
        assert(pieces(st.src, st.pos, run_cuts(st)) =~= st.src.subrange(st.pos, st2.pos) + pieces(
            st.src,
            st2.pos,
            run_cuts(st2),
        ));
        assert(pieces(st.src, st.pos, run_cuts(st)) =~= st.src.subrange(
            st.pos,
            st.src.len() as int,
        ));
        assert(run(st).0 =~= seq![r] + run(st2).0);
    }
}

/// Whether the closing pair `*/` occurs anywhere at or after `from`.
pub open spec fn has_comment_close(src: Seq<char>, from: int) -> bool {
    exists|i: int| from <= i && i + 1 < src.len() && #[trigger] src[i] == '*' && src[i + 1] == '/'
}

/// The block comment body errs when no `*/` remains, and the error carries
/// the line the scan was entered with.
proof fn lemma_block_scan_unterminated(st: LexState, start_line: int)
    requires
        st.wf(),
        !has_comment_close(st.src, st.pos),
    ensures
        block_comment_scan(st, start_line).0 matches Some(e) && e matches
            ErrorModel::CommentNotTerminated { line, column } && line == start_line,
    decreases st.src.len() - st.pos,
{
    if !st.at_end() {
        let c = st.src[st.pos];
        let st1 = st.consumed();
        if c == '\n' {
            lemma_block_scan_unterminated(
                LexState { current: 0, line: st1.line + 1, ..st1 },
                start_line,
            );
        } else if c == '*' {
            let (m, st2) = match_char(st1, '/');
            assert(!m) by {
                if m {
                    assert(st.src[st.pos] == '*' && st.src[st.pos + 1] == '/');
                }
            }
            lemma_block_scan_unterminated(st2, start_line);
        } else {
            lemma_block_scan_unterminated(st1, start_line);
        }
    }
}

/// A block comment that never closes: when `/*` stands at the cursor and no
/// `*/` occurs anywhere after it, the scanner yields `CommentNotTerminated`
/// carrying the line the comment began on.
pub proof fn lemma_unterminated_block_comment(st: LexState)
    requires
        st.wf(),
        st.pos + 2 <= st.src.len(),
        st.src[st.pos] == '/',
        st.src[st.pos + 1] == '*',
        !has_comment_close(st.src, st.pos + 2),
    ensures
        next_token(st).0 matches Err(e) && e matches ErrorModel::CommentNotTerminated {
            line,
            column,
        } && line == st.line,
{
    let with_start = LexState { start: st.current + 1, ..st };
    let st1 = with_start.consumed();
    let (m1, sta) = match_char(st1, '/');
    assert(!m1);
    let (m2, stb) = match_char(st1, '*');
    assert(m2);
    let (mj, stc) = match_char(stb, '*');
    assert(!has_comment_close(st.src, stc.pos));
    lemma_block_scan_unterminated(stc, stb.line);
}

/// The complete table of operator strings: each maps to the one token kind
/// that greedy longest-match scanning gives it.
pub open spec fn operator_kind(s: Seq<char>) -> Option<TokenType> {
    if s == seq!['.'] {
        Some(TokenType::DotToken)
    } else if s == seq!['.', '.', '.'] {
        Some(TokenType::DotDotDotToken)
    } else if s == seq!['+'] {
        Some(TokenType::PlusToken)
    } else if s == seq!['+', '+'] {
        Some(TokenType::PlusPlusToken)
    } else if s == seq!['+', '='] {
        Some(TokenType::PlusEqualsToken)
    } else if s == seq!['-'] {
        Some(TokenType::MinusToken)
    } else if s == seq!['-', '-'] {
        Some(TokenType::MinusMinusToken)
    } else if s == seq!['-', '='] {
        Some(TokenType::MinusEqualsToken)
    } else if s == seq!['*'] {
        Some(TokenType::AsteriskToken)
    } else if s == seq!['*', '='] {
        Some(TokenType::AsteriskEqualsToken)
    } else if s == seq!['*', '*'] {
        Some(TokenType::AsteriskAsteriskToken)
    } else if s == seq!['*', '*', '='] {
        Some(TokenType::AsteriskAsteriskEqualsToken)
    } else if s == seq!['/'] {
        Some(TokenType::SlashToken)
    } else if s == seq!['/', '='] {
        Some(TokenType::SlashEqualsToken)
    } else if s == seq!['%'] {
        Some(TokenType::PercentToken)
    } else if s == seq!['%', '='] {
        Some(TokenType::PercentEqualsToken)
    } else if s == seq!['='] {
        Some(TokenType::EqualsToken)
    } else if s == seq!['=', '='] {
        Some(TokenType::EqualsEqualsToken)
    } else if s == seq!['=', '=', '='] {
        Some(TokenType::EqualsEqualsEqualsToken)
    } else if s == seq!['=', '>'] {
        Some(TokenType::EqualsGreaterThanToken)
    } else if s == seq!['!'] {
        Some(TokenType::ExclamationToken)
    } else if s == seq!['!', '='] {
        Some(TokenType::ExclamationEqualsToken)
    } else if s == seq!['!', '=', '='] {
        Some(TokenType::ExclamationEqualsEqualsToken)
    } else if s == seq!['?'] {
        Some(TokenType::QuestionToken)
    } else if s == seq!['?', '?'] {
        Some(TokenType::QuestionQuestionToken)
    } else if s == seq!['?', '?', '='] {
        Some(TokenType::QuestionQuestionEqualsToken)
    } else if s == seq!['?', '.'] {
        Some(TokenType::QuestionDotToken)
    } else if s == seq!['<'] {
        Some(TokenType::LessThanToken)
    } else if s == seq!['<', '='] {
        Some(TokenType::LessThanEqualsToken)
    } else if s == seq!['<', '/'] {
        Some(TokenType::LessThanSlashToken)
    } else if s == seq!['<', '<'] {
        Some(TokenType::LessThanLessThanToken)
    } else if s == seq!['<', '<', '='] {
        Some(TokenType::LessThanLessThanEqualsToken)
    } else if s == seq!['>'] {
        Some(TokenType::GreaterThanToken)
    } else if s == seq!['>', '='] {
        Some(TokenType::GreaterThanEqualsToken)
    } else if s == seq!['>', '>'] {
        Some(TokenType::GreaterThanGreaterThanToken)
    } else if s == seq!['>', '>', '='] {
        Some(TokenType::GreaterThanGreaterThanEqualsToken)
    } else if s == seq!['>', '>', '>'] {
        Some(TokenType::GreaterThanGreaterThanGreaterThanToken)
    } else if s == seq!['>', '>', '>', '='] {
        Some(TokenType::GreaterThanGreaterThanGreaterThanEqualsToken)
    } else if s == seq!['&'] {
        Some(TokenType::AmpersandToken)
    } else if s == seq!['&', '='] {
        Some(TokenType::AmpersandEqualsToken)
    } else if s == seq!['&', '&'] {
        Some(TokenType::AmpersandAmpersandToken)
    } else if s == seq!['&', '&', '='] {
        Some(TokenType::AmpersandAmpersandEqualsToken)
    } else if s == seq!['|'] {
        Some(TokenType::BarToken)
    } else if s == seq!['|', '='] {
        Some(TokenType::BarEqualsToken)
    } else if s == seq!['|', '|'] {
        Some(TokenType::BarBarToken)
    } else if s == seq!['|', '|', '='] {
        Some(TokenType::BarBarEqualsToken)
    } else if s == seq!['^'] {
        Some(TokenType::CaretToken)
    } else if s == seq!['^', '='] {
        Some(TokenType::CaretEqualsToken)
    } else {
        None
    }
}

/// What it means for a source to scan as exactly one spanless token of kind
/// `k` and then only end of file.
pub open spec fn single_operator_scan(s: Seq<char>, k: TokenType) -> bool {
    &&& run(LexState::init(s)).0 == seq![
        Ok::<TokenModel, ErrorModel>(
            TokenModel {
                token_type: k,
                line: 1,
                start: 1,
                end: s.len() as int + 1,
                lexeme: None,
                literal_value: None,
            },
        ),
    ]
    &&& run(LexState::init(s)).1.at_end()
}

proof fn lemma_operator_family_dot(s: Seq<char>)
    requires
        s == seq!['.'] || s == seq!['.', '.', '.'],
    ensures
        operator_kind(s) matches Some(k) && single_operator_scan(s, k),
{
    let st = LexState::init(s);
    let (r, st2) = next_token(st);
    assert(skip(st) == st);
    assert(run(st2).0 =~= Seq::<ScanModel>::empty());
    assert(run(st).0 =~= seq![r] + run(st2).0);
    assert(run(st).0 =~= seq![
        Ok::<TokenModel, ErrorModel>(
            TokenModel {
                token_type: operator_kind(s)->0,
                line: 1,
                start: 1,
                end: s.len() as int + 1,
                lexeme: None,
                literal_value: None,
            },
        ),
    ]);
}

proof fn lemma_operator_family_plus(s: Seq<char>)
    requires
        s == seq!['+'] || s == seq!['+', '+'] || s == seq!['+', '='],
    ensures
        operator_kind(s) matches Some(k) && single_operator_scan(s, k),
{
    let st = LexState::init(s);
    let (r, st2) = next_token(st);
    assert(skip(st) == st);
    assert(run(st2).0 =~= Seq::<ScanModel>::empty());
    assert(run(st).0 =~= seq![r] + run(st2).0);
    assert(run(st).0 =~= seq![
        Ok::<TokenModel, ErrorModel>(
            TokenModel {
                token_type: operator_kind(s)->0,
                line: 1,
                start: 1,
                end: s.len() as int + 1,
                lexeme: None,
                literal_value: None,
            },
        ),
    ]);
}

proof fn lemma_operator_family_minus(s: Seq<char>)
    requires
        s == seq!['-'] || s == seq!['-', '-'] || s == seq!['-', '='],
    ensures
        operator_kind(s) matches Some(k) && single_operator_scan(s, k),
{
    let st = LexState::init(s);
    let (r, st2) = next_token(st);
    assert(skip(st) == st);
    assert(run(st2).0 =~= Seq::<ScanModel>::empty());
    assert(run(st).0 =~= seq![r] + run(st2).0);
    assert(run(st).0 =~= seq![
        Ok::<TokenModel, ErrorModel>(
            TokenModel {
                token_type: operator_kind(s)->0,
                line: 1,
                start: 1,
                end: s.len() as int + 1,
                lexeme: None,
                literal_value: None,
            },
        ),
    ]);
}

proof fn lemma_operator_family_asterisk(s: Seq<char>)
    requires
        s == seq!['*'] || s == seq!['*', '='] || s == seq!['*', '*'] || s == seq!['*', '*', '='],
    ensures
        operator_kind(s) matches Some(k) && single_operator_scan(s, k),
{
    let st = LexState::init(s);
    let (r, st2) = next_token(st);
    assert(skip(st) == st);
    assert(run(st2).0 =~= Seq::<ScanModel>::empty());
    assert(run(st).0 =~= seq![r] + run(st2).0);
    assert(run(st).0 =~= seq![
        Ok::<TokenModel, ErrorModel>(
            TokenModel {
                token_type: operator_kind(s)->0,
                line: 1,
                start: 1,
                end: s.len() as int + 1,
                lexeme: None,
                literal_value: None,
            },
        ),
    ]);
}

proof fn lemma_operator_family_slash(s: Seq<char>)
    requires
        s == seq!['/'] || s == seq!['/', '='],
    ensures
        operator_kind(s) matches Some(k) && single_operator_scan(s, k),
{
    let st = LexState::init(s);
    let (r, st2) = next_token(st);
    assert(skip(st) == st);
    assert(run(st2).0 =~= Seq::<ScanModel>::empty());
    assert(run(st).0 =~= seq![r] + run(st2).0);
    assert(run(st).0 =~= seq![
        Ok::<TokenModel, ErrorModel>(
            TokenModel {
                token_type: operator_kind(s)->0,
                line: 1,
                start: 1,
                end: s.len() as int + 1,
                lexeme: None,
                literal_value: None,
            },
        ),
    ]);
}

proof fn lemma_operator_family_percent(s: Seq<char>)
    requires
        s == seq!['%'] || s == seq!['%', '='],
    ensures
        operator_kind(s) matches Some(k) && single_operator_scan(s, k),
{
    let st = LexState::init(s);
    let (r, st2) = next_token(st);
    assert(skip(st) == st);
    assert(run(st2).0 =~= Seq::<ScanModel>::empty());
    assert(run(st).0 =~= seq![r] + run(st2).0);
    assert(run(st).0 =~= seq![
        Ok::<TokenModel, ErrorModel>(
            TokenModel {
                token_type: operator_kind(s)->0,
                line: 1,
                start: 1,
                end: s.len() as int + 1,
                lexeme: None,
                literal_value: None,
            },
        ),
    ]);
}

proof fn lemma_operator_family_equals(s: Seq<char>)
    requires
        s == seq!['='] || s == seq!['=', '='] || s == seq!['=', '=', '='] || s == seq!['=', '>'],
    ensures
        operator_kind(s) matches Some(k) && single_operator_scan(s, k),
{
    let st = LexState::init(s);
    let (r, st2) = next_token(st);
    assert(skip(st) == st);
    assert(run(st2).0 =~= Seq::<ScanModel>::empty());
    assert(run(st).0 =~= seq![r] + run(st2).0);
    assert(run(st).0 =~= seq![
        Ok::<TokenModel, ErrorModel>(
            TokenModel {
                token_type: operator_kind(s)->0,
                line: 1,
                start: 1,
                end: s.len() as int + 1,
                lexeme: None,
                literal_value: None,
            },
        ),
    ]);
}

proof fn lemma_operator_family_exclamation(s: Seq<char>)
    requires
        s == seq!['!'] || s == seq!['!', '='] || s == seq!['!', '=', '='],
    ensures
        operator_kind(s) matches Some(k) && single_operator_scan(s, k),
{
    let st = LexState::init(s);
    let (r, st2) = next_token(st);
    assert(skip(st) == st);
    assert(run(st2).0 =~= Seq::<ScanModel>::empty());
    assert(run(st).0 =~= seq![r] + run(st2).0);
    assert(run(st).0 =~= seq![
        Ok::<TokenModel, ErrorModel>(
            TokenModel {
                token_type: operator_kind(s)->0,
                line: 1,
                start: 1,
                end: s.len() as int + 1,
                lexeme: None,
                literal_value: None,
            },
        ),
    ]);
}

proof fn lemma_operator_family_question(s: Seq<char>)
    requires
        s == seq!['?'] || s == seq!['?', '?'] || s == seq!['?', '?', '='] || s == seq!['?', '.'],
    ensures
        operator_kind(s) matches Some(k) && single_operator_scan(s, k),
{
    let st = LexState::init(s);
    let (r, st2) = next_token(st);
    assert(skip(st) == st);
    assert(run(st2).0 =~= Seq::<ScanModel>::empty());
    assert(run(st).0 =~= seq![r] + run(st2).0);
    assert(run(st).0 =~= seq![
        Ok::<TokenModel, ErrorModel>(
            TokenModel {
                token_type: operator_kind(s)->0,
                line: 1,
                start: 1,
                end: s.len() as int + 1,
                lexeme: None,
                literal_value: None,
            },
        ),
    ]);
}

proof fn lemma_operator_family_less(s: Seq<char>)
    requires
        s == seq!['<'] || s == seq!['<', '='] || s == seq!['<', '/'] || s == seq!['<', '<'] || s == seq!['<', '<', '='],
    ensures
        operator_kind(s) matches Some(k) && single_operator_scan(s, k),
{
    let st = LexState::init(s);
    let (r, st2) = next_token(st);
    assert(skip(st) == st);
    assert(run(st2).0 =~= Seq::<ScanModel>::empty());
    assert(run(st).0 =~= seq![r] + run(st2).0);
    assert(run(st).0 =~= seq![
        Ok::<TokenModel, ErrorModel>(
            TokenModel {
                token_type: operator_kind(s)->0,
                line: 1,
                start: 1,
                end: s.len() as int + 1,
                lexeme: None,
                literal_value: None,
            },
        ),
    ]);
}

proof fn lemma_operator_family_greater(s: Seq<char>)
    requires
        s == seq!['>'] || s == seq!['>', '='] || s == seq!['>', '>'] || s == seq!['>', '>', '='] || s == seq!['>', '>', '>'] || s == seq!['>', '>', '>', '='],
    ensures
        operator_kind(s) matches Some(k) && single_operator_scan(s, k),
{
    let st = LexState::init(s);
    let (r, st2) = next_token(st);
    assert(skip(st) == st);
    assert(run(st2).0 =~= Seq::<ScanModel>::empty());
    assert(run(st).0 =~= seq![r] + run(st2).0);
    assert(run(st).0 =~= seq![
        Ok::<TokenModel, ErrorModel>(
            TokenModel {
                token_type: operator_kind(s)->0,
                line: 1,
                start: 1,
                end: s.len() as int + 1,
                lexeme: None,
                literal_value: None,
            },
        ),
    ]);
}

proof fn lemma_operator_family_ampersand(s: Seq<char>)
    requires
        s == seq!['&'] || s == seq!['&', '='] || s == seq!['&', '&'] || s == seq!['&', '&', '='],
    ensures
        operator_kind(s) matches Some(k) && single_operator_scan(s, k),
{
    let st = LexState::init(s);
    let (r, st2) = next_token(st);
    assert(skip(st) == st);
    assert(run(st2).0 =~= Seq::<ScanModel>::empty());
    assert(run(st).0 =~= seq![r] + run(st2).0);
    assert(run(st).0 =~= seq![
        Ok::<TokenModel, ErrorModel>(
            TokenModel {
                token_type: operator_kind(s)->0,
                line: 1,
                start: 1,
                end: s.len() as int + 1,
                lexeme: None,
                literal_value: None,
            },
        ),
    ]);
}

proof fn lemma_operator_family_bar(s: Seq<char>)
    requires
        s == seq!['|'] || s == seq!['|', '='] || s == seq!['|', '|'] || s == seq!['|', '|', '='],
    ensures
        operator_kind(s) matches Some(k) && single_operator_scan(s, k),
{
    let st = LexState::init(s);
    let (r, st2) = next_token(st);
    assert(skip(st) == st);
    assert(run(st2).0 =~= Seq::<ScanModel>::empty());
    assert(run(st).0 =~= seq![r] + run(st2).0);
    assert(run(st).0 =~= seq![
        Ok::<TokenModel, ErrorModel>(
            TokenModel {
                token_type: operator_kind(s)->0,
                line: 1,
                start: 1,
                end: s.len() as int + 1,
                lexeme: None,
                literal_value: None,
            },
        ),
    ]);
}

proof fn lemma_operator_family_caret(s: Seq<char>)
    requires
        s == seq!['^'] || s == seq!['^', '='],
    ensures
        operator_kind(s) matches Some(k) && single_operator_scan(s, k),
{
    let st = LexState::init(s);
    let (r, st2) = next_token(st);
    assert(skip(st) == st);
    assert(run(st2).0 =~= Seq::<ScanModel>::empty());
    assert(run(st).0 =~= seq![r] + run(st2).0);
    assert(run(st).0 =~= seq![
        Ok::<TokenModel, ErrorModel>(
            TokenModel {
                token_type: operator_kind(s)->0,
                line: 1,
                start: 1,
                end: s.len() as int + 1,
                lexeme: None,
                literal_value: None,
            },
        ),
    ]);
}

/// Maximal munch: a source holding exactly one operator string from the
/// table scans to exactly one token — the operator\'s full form, never a
/// split into shorter ones — and then only end of file.
pub proof fn lemma_operator_longest_match(s: Seq<char>)
    requires
        operator_kind(s) is Some,
    ensures
        single_operator_scan(s, operator_kind(s)->0),
{
    if s == seq!['.'] || s == seq!['.', '.', '.'] {
        lemma_operator_family_dot(s);
    } else if s == seq!['+'] || s == seq!['+', '+'] || s == seq!['+', '='] {
        lemma_operator_family_plus(s);
    } else if s == seq!['-'] || s == seq!['-', '-'] || s == seq!['-', '='] {
        lemma_operator_family_minus(s);
    } else if s == seq!['*'] || s == seq!['*', '='] || s == seq!['*', '*'] || s == seq!['*', '*', '='] {
        lemma_operator_family_asterisk(s);
    } else if s == seq!['/'] || s == seq!['/', '='] {
        lemma_operator_family_slash(s);
    } else if s == seq!['%'] || s == seq!['%', '='] {
        lemma_operator_family_percent(s);
    } else if s == seq!['='] || s == seq!['=', '='] || s == seq!['=', '=', '='] || s == seq!['=', '>'] {
        lemma_operator_family_equals(s);
    } else if s == seq!['!'] || s == seq!['!', '='] || s == seq!['!', '=', '='] {
        lemma_operator_family_exclamation(s);
    } else if s == seq!['?'] || s == seq!['?', '?'] || s == seq!['?', '?', '='] || s == seq!['?', '.'] {
        lemma_operator_family_question(s);
    } else if s == seq!['<'] || s == seq!['<', '='] || s == seq!['<', '/'] || s == seq!['<', '<'] || s == seq!['<', '<', '='] {
        lemma_operator_family_less(s);
    } else if s == seq!['>'] || s == seq!['>', '='] || s == seq!['>', '>'] || s == seq!['>', '>', '='] || s == seq!['>', '>', '>'] || s == seq!['>', '>', '>', '='] {
        lemma_operator_family_greater(s);
    } else if s == seq!['&'] || s == seq!['&', '='] || s == seq!['&', '&'] || s == seq!['&', '&', '='] {
        lemma_operator_family_ampersand(s);
    } else if s == seq!['|'] || s == seq!['|', '='] || s == seq!['|', '|'] || s == seq!['|', '|', '='] {
        lemma_operator_family_bar(s);
    } else if s == seq!['^'] || s == seq!['^', '='] {
        lemma_operator_family_caret(s);
    }
}

} // verus!
