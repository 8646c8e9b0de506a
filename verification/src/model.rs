//! What scanning means, as mathematics: a step function that classifies one
//! token at a cursor position, and its closure over a whole source.
//!
//! Character positions are Unicode scalar values of the source, indexed from
//! zero; lines are counted from one, one more per `'\n'` consumed.

use vstd::prelude::*;

use crate::keywords::spec_keyword;
use crate::token::{DiagnosticKind, SpecDiagnostic, SpecToken, TokenKind};

verus! {

/// True for the ASCII digits `'0'` through `'9'`.
pub open spec fn is_digit(c: char) -> bool {
    ('0' as u32) <= (c as u32) && (c as u32) <= ('9' as u32)
}

/// True for the ASCII letters. Identifiers are ASCII-only: they begin with a
/// letter and continue with letters and digits.
pub open spec fn is_alpha(c: char) -> bool {
    ((('a' as u32) <= (c as u32)) && ((c as u32) <= ('z' as u32))) || ((('A' as u32) <= (c as u32))
        && ((c as u32) <= ('Z' as u32)))
}

/// The continuation class of identifiers: ASCII letters and digits.
pub open spec fn is_alnum(c: char) -> bool {
    is_alpha(c) || is_digit(c)
}

/// The first position at or after `i` that holds a `'\n'`, or the end of `s`.
pub open spec fn comment_end(s: Seq<char>, i: int) -> int
    decreases s.len() - i,
{
    if i < 0 || i >= s.len() {
        s.len() as int
    } else if s[i] == '\n' {
        i
    } else {
        comment_end(s, i + 1)
    }
}

/// The first position at or after `i` that holds a `'"'`, or the end of `s`.
pub open spec fn close_quote(s: Seq<char>, i: int) -> int
    decreases s.len() - i,
{
    if i < 0 || i >= s.len() {
        s.len() as int
    } else if s[i] == '"' {
        i
    } else {
        close_quote(s, i + 1)
    }
}

/// The first position at or after `i` that holds no ASCII digit, or the end
/// of `s`.
pub open spec fn digits_end(s: Seq<char>, i: int) -> int
    decreases s.len() - i,
{
    if i < 0 || i >= s.len() {
        s.len() as int
    } else if !is_digit(s[i]) {
        i
    } else {
        digits_end(s, i + 1)
    }
}

/// The first position at or after `i` that holds no identifier continuation
/// character, or the end of `s`.
pub open spec fn alnum_end(s: Seq<char>, i: int) -> int
    decreases s.len() - i,
{
    if i < 0 || i >= s.len() {
        s.len() as int
    } else if !is_alnum(s[i]) {
        i
    } else {
        alnum_end(s, i + 1)
    }
}

/// The number of `'\n'` characters in `s[i..j)`.
pub open spec fn newlines(s: Seq<char>, i: int, j: int) -> int
    decreases j - i,
{
    if i >= j {
        0
    } else {
        newlines(s, i, j - 1) + if s[j - 1] == '\n' {
            1int
        } else {
            0int
        }
    }
}

/// The token of `kind` that covers `s[start..end)` and begins on `line`.
pub open spec fn made_token(
    kind: TokenKind,
    s: Seq<char>,
    start: int,
    end: int,
    line: int,
) -> SpecToken {
    SpecToken { kind, lexeme: s.subrange(start, end), line, start, end }
}

/// The diagnostic of `kind` reported on `line`.
pub open spec fn made_diag(kind: DiagnosticKind, line: int) -> SpecDiagnostic {
    SpecDiagnostic { kind, line }
}

/// What one classification step does: where the cursor stands afterwards,
/// the line counter afterwards, and the token or diagnostic it emitted.
pub struct SpecStep {
    pub next: int,
    pub line: int,
    pub token: Option<SpecToken>,
    pub diag: Option<SpecDiagnostic>,
}

/// A step that emits the token of `kind` covering the `width` characters at
/// `pos` and moves past them.
pub open spec fn punct_step(
    kind: TokenKind,
    s: Seq<char>,
    pos: int,
    line: int,
    width: int,
) -> SpecStep {
    SpecStep {
        next: pos + width,
        line,
        token: Some(made_token(kind, s, pos, pos + width, line)),
        diag: None,
    }
}

/// The step for `'!'`, `'='`, `'<'` and `'>'`: the two-character operator
/// when an `'='` follows, else the one-character operator.
pub open spec fn operator_step(
    s: Seq<char>,
    pos: int,
    line: int,
    two: TokenKind,
    one: TokenKind,
) -> SpecStep {
    if pos + 1 < s.len() && s[pos + 1] == '=' {
        punct_step(two, s, pos, line, 2)
    } else {
        punct_step(one, s, pos, line, 1)
    }
}

/// The step for an opening `'"'` at `pos`: the string literal token through
/// the next `'"'`, or an unterminated-string diagnostic when the source ends
/// first. The token's line is the opening quote's line; the line counter
/// moves over every `'\n'` the literal spans.
pub open spec fn string_step(s: Seq<char>, pos: int, line: int) -> SpecStep {
    let close = close_quote(s, pos + 1);
    if close >= s.len() {
        SpecStep {
            next: s.len() as int,
            line: line + newlines(s, pos + 1, s.len() as int),
            token: None,
            diag: Some(
                SpecDiagnostic {
                    kind: DiagnosticKind::UnterminatedString,
                    line: line + newlines(s, pos + 1, s.len() as int),
                },
            ),
        }
    } else {
        SpecStep {
            next: close + 1,
            line: line + newlines(s, pos + 1, close),
            token: Some(made_token(TokenKind::StringLit, s, pos, close + 1, line)),
            diag: None,
        }
    }
}

/// The step for a digit at `pos`: the maximal digit run, extended over a dot
/// only when a digit follows the dot, so that `123.` is a number and then a
/// dot.
pub open spec fn number_step(s: Seq<char>, pos: int, line: int) -> SpecStep {
    let whole = digits_end(s, pos + 1);
    let stop = if whole + 1 < s.len() && s[whole] == '.' && is_digit(s[whole + 1]) {
        digits_end(s, whole + 1)
    } else {
        whole
    };
    SpecStep {
        next: stop,
        line,
        token: Some(made_token(TokenKind::Number, s, pos, stop, line)),
        diag: None,
    }
}

/// The step for a letter at `pos`: the maximal run of letters and digits,
/// emitted as the reserved word it spells or else as an identifier.
pub open spec fn identifier_step(s: Seq<char>, pos: int, line: int) -> SpecStep {
    let stop = alnum_end(s, pos + 1);
    let kind = match spec_keyword(s.subrange(pos, stop)) {
        Some(k) => k,
        None => TokenKind::Identifier,
    };
    SpecStep { next: stop, line, token: Some(made_token(kind, s, pos, stop, line)), diag: None }
}

/// One classification step at `pos` (which must hold a character): where the
/// cursor and line counter move and what is emitted.
pub open spec fn scan_step(s: Seq<char>, pos: int, line: int) -> SpecStep {
    let c = s[pos];
    if c == '(' {
        punct_step(TokenKind::LeftParen, s, pos, line, 1)
    } else if c == ')' {
        punct_step(TokenKind::RightParen, s, pos, line, 1)
    } else if c == '{' {
        punct_step(TokenKind::LeftBrace, s, pos, line, 1)
    } else if c == '}' {
        punct_step(TokenKind::RightBrace, s, pos, line, 1)
    } else if c == ',' {
        punct_step(TokenKind::Comma, s, pos, line, 1)
    } else if c == '.' {
        punct_step(TokenKind::Dot, s, pos, line, 1)
    } else if c == '-' {
        punct_step(TokenKind::Minus, s, pos, line, 1)
    } else if c == '+' {
        punct_step(TokenKind::Plus, s, pos, line, 1)
    } else if c == ';' {
        punct_step(TokenKind::Semicolon, s, pos, line, 1)
    } else if c == '*' {
        punct_step(TokenKind::Star, s, pos, line, 1)
    } else if c == '!' {
        operator_step(s, pos, line, TokenKind::BangEqual, TokenKind::Bang)
    } else if c == '=' {
        operator_step(s, pos, line, TokenKind::EqualEqual, TokenKind::Equal)
    } else if c == '<' {
        operator_step(s, pos, line, TokenKind::LessEqual, TokenKind::Less)
    } else if c == '>' {
        operator_step(s, pos, line, TokenKind::GreaterEqual, TokenKind::Greater)
    } else if c == '/' {
        if pos + 1 < s.len() && s[pos + 1] == '/' {
            SpecStep { next: comment_end(s, pos + 2), line, token: None, diag: None }
        } else {
            punct_step(TokenKind::Slash, s, pos, line, 1)
        }
    } else if c == '"' {
        string_step(s, pos, line)
    } else if c == ' ' || c == '\r' || c == '\t' {
        SpecStep { next: pos + 1, line, token: None, diag: None }
    } else if c == '\n' {
        SpecStep { next: pos + 1, line: line + 1, token: None, diag: None }
    } else if is_digit(c) {
        number_step(s, pos, line)
    } else if is_alpha(c) {
        identifier_step(s, pos, line)
    } else {
        SpecStep {
            next: pos + 1,
            line,
            token: None,
            diag: Some(SpecDiagnostic { kind: DiagnosticKind::UnexpectedCharacter, line }),
        }
    }
}

/// The tokens and diagnostics a step emits, as sequences of length zero or
/// one.
pub open spec fn step_tokens(st: SpecStep) -> Seq<SpecToken> {
    match st.token {
        Some(t) => seq![t],
        None => Seq::empty(),
    }
}

/// See `step_tokens`.
pub open spec fn step_diags(st: SpecStep) -> Seq<SpecDiagnostic> {
    match st.diag {
        Some(d) => seq![d],
        None => Seq::empty(),
    }
}

/// Everything a scan emits from `pos` on, and the line counter it ends with.
/// The end-of-source token is not included; `scanned_tokens` appends it.
pub struct ScanRest {
    pub tokens: Seq<SpecToken>,
    pub diags: Seq<SpecDiagnostic>,
    pub line: int,
}

/// `comment_end` marks the first `'\n'` at or after `i`: no `'\n'` stands
/// before it, and it stands at a `'\n'` or at the end of the source.
pub proof fn lemma_comment_end(s: Seq<char>, i: int)
    requires
        0 <= i <= s.len(),
    ensures
        i <= comment_end(s, i) <= s.len(),
        forall|k: int| i <= k < comment_end(s, i) ==> s[k] != '\n',
        comment_end(s, i) == s.len() || s[comment_end(s, i)] == '\n',
    decreases s.len() - i,
{
    if i < s.len() && s[i] != '\n' {
        lemma_comment_end(s, i + 1);
    }
}

/// `close_quote` marks the first `'"'` at or after `i`, in the manner of
/// `lemma_comment_end`.
pub proof fn lemma_close_quote(s: Seq<char>, i: int)
    requires
        0 <= i <= s.len(),
    ensures
        i <= close_quote(s, i) <= s.len(),
        forall|k: int| i <= k < close_quote(s, i) ==> s[k] != '"',
        close_quote(s, i) == s.len() || s[close_quote(s, i)] == '"',
    decreases s.len() - i,
{
    if i < s.len() && s[i] != '"' {
        lemma_close_quote(s, i + 1);
    }
}

/// `digits_end` marks the end of the digit run that begins at `i`.
pub proof fn lemma_digits_end(s: Seq<char>, i: int)
    requires
        0 <= i <= s.len(),
    ensures
        i <= digits_end(s, i) <= s.len(),
        forall|k: int| i <= k < digits_end(s, i) ==> is_digit(s[k]),
        digits_end(s, i) == s.len() || !is_digit(s[digits_end(s, i)]),
    decreases s.len() - i,
{
    if i < s.len() && is_digit(s[i]) {
        lemma_digits_end(s, i + 1);
    }
}

/// `alnum_end` marks the end of the identifier-continuation run that begins
/// at `i`.
pub proof fn lemma_alnum_end(s: Seq<char>, i: int)
    requires
        0 <= i <= s.len(),
    ensures
        i <= alnum_end(s, i) <= s.len(),
        forall|k: int| i <= k < alnum_end(s, i) ==> is_alnum(s[k]),
        alnum_end(s, i) == s.len() || !is_alnum(s[alnum_end(s, i)]),
    decreases s.len() - i,
{
    if i < s.len() && is_alnum(s[i]) {
        lemma_alnum_end(s, i + 1);
    }
}

/// Splitting a range splits its newline count.
pub proof fn lemma_newlines_split(s: Seq<char>, i: int, j: int, k: int)
    requires
        i <= j <= k,
    ensures
        newlines(s, i, k) == newlines(s, i, j) + newlines(s, j, k),
    decreases k - j,
{
    if j < k {
        lemma_newlines_split(s, i, j, k - 1);
    }
}

/// A newline count is never negative.
pub proof fn lemma_newlines_nonneg(s: Seq<char>, i: int, j: int)
    ensures
        newlines(s, i, j) >= 0,
    decreases j - i,
{
    if i < j {
        lemma_newlines_nonneg(s, i, j - 1);
    }
}

/// A range free of `'\n'` counts no newlines.
pub proof fn lemma_newlines_none(s: Seq<char>, i: int, j: int)
    requires
        forall|k: int| i <= k < j ==> s[k] != '\n',
    ensures
        newlines(s, i, j) == 0,
    decreases j - i,
{
    if i < j {
        lemma_newlines_none(s, i, j - 1);
    }
}

/// A step consumes at least one character and never passes the end.
pub proof fn lemma_step_next(s: Seq<char>, pos: int, line: int)
    requires
        0 <= pos < s.len(),
    ensures
        pos < scan_step(s, pos, line).next <= s.len(),
{
    if pos + 2 <= s.len() {
        lemma_comment_end(s, pos + 2);
    }
    lemma_close_quote(s, pos + 1);
    lemma_digits_end(s, pos + 1);
    let whole = digits_end(s, pos + 1);
    if whole + 1 <= s.len() {
        lemma_digits_end(s, whole + 1);
    }
    lemma_alnum_end(s, pos + 1);
}

/// The scan of `s` from position `pos` on, with the line counter at `line`.
pub open spec fn scan_rest(s: Seq<char>, pos: int, line: int) -> ScanRest
    decreases s.len() - pos,
    via scan_rest_decreases
{
    if pos < 0 || pos >= s.len() {
        ScanRest { tokens: Seq::empty(), diags: Seq::empty(), line }
    } else {
        let st = scan_step(s, pos, line);
        let rest = scan_rest(s, st.next, st.line);
        ScanRest {
            tokens: step_tokens(st) + rest.tokens,
            diags: step_diags(st) + rest.diags,
            line: rest.line,
        }
    }
}

#[via_fn]
proof fn scan_rest_decreases(s: Seq<char>, pos: int, line: int) {
    if 0 <= pos && pos < s.len() {
        lemma_step_next(s, pos, line);
    }
}

/// The end-of-source token: empty lexeme, the empty range at the end of the
/// source, on the final line.
pub open spec fn eof_token(s: Seq<char>, line: int) -> SpecToken {
    SpecToken {
        kind: TokenKind::Eof,
        lexeme: Seq::empty(),
        line,
        start: s.len() as int,
        end: s.len() as int,
    }
}

/// The whole scan of `s`, from its beginning on line 1.
pub open spec fn scan_result(s: Seq<char>) -> ScanRest {
    scan_rest(s, 0, 1)
}

/// The token sequence a scan of `s` returns: everything emitted, then the
/// end-of-source token.
pub open spec fn scanned_tokens(s: Seq<char>) -> Seq<SpecToken> {
    scan_result(s).tokens.push(eof_token(s, scan_result(s).line))
}

/// The diagnostics a scan of `s` reports, in source order.
pub open spec fn scanned_diags(s: Seq<char>) -> Seq<SpecDiagnostic> {
    scan_result(s).diags
}

/// The line counter after a scan of `s`.
pub open spec fn final_line(s: Seq<char>) -> int {
    scan_result(s).line
}

} // verus!
