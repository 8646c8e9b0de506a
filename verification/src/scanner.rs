//! The scanner: a single-pass cursor over the source that emits tokens and
//! collects diagnostics, proved equal to the model's scan.

use vstd::prelude::*;
use vstd::std_specs::iter::IteratorSpec;
use vstd::string::StrSliceExecFns;

use crate::keywords::match_keywords;
use crate::model::{
    alnum_end, close_quote, comment_end, digits_end, eof_token, final_line, is_alnum, is_alpha,
    is_digit, made_diag, made_token, newlines, scan_rest, scan_step, scanned_diags,
    scanned_tokens, step_diags, step_tokens,
};
use crate::token::{
    diagnostic_views, token_views, Diagnostic, DiagnosticKind, SpecDiagnostic, SpecToken, Token,
    TokenKind,
};

verus! {

broadcast use vstd::string::axiom_spec_iter, vstd::string::next_postcondition;

/// Decides `is_digit`.
fn digit_char(c: char) -> (r: bool)
    ensures
        r == is_digit(c),
{
    ('0' as u32) <= (c as u32) && (c as u32) <= ('9' as u32)
}

/// Decides `is_alpha`.
fn alpha_char(c: char) -> (r: bool)
    ensures
        r == is_alpha(c),
{
    let u: u32 = c as u32;
    (('a' as u32) <= u && u <= ('z' as u32)) || (('A' as u32) <= u && u <= ('Z' as u32))
}

/// Decides `is_alnum`.
fn alnum_char(c: char) -> (r: bool)
    ensures
        r == is_alnum(c),
{
    alpha_char(c) || digit_char(c)
}

/// The characters of `s`, in order, as a vector.
fn chars_of(s: &str) -> (r: Vec<char>)
    ensures
        r@ == s@,
{
    let mut r: Vec<char> = Vec::new();
    let mut it = s.chars();
    proof {
        assert(r@ + it.remaining() =~= s@);
    }
    loop
        invariant_except_break
            r@ + it.remaining() == s@,
            it.decrease() is Some,
        ensures
            r@ == s@,
        decreases it.decrease()->0,
    {
        match it.next() {
            Some(c) => {
                r.push(c);
                proof {
                    assert(r@ + it.remaining() =~= s@);
                }
            },
            None => {
                proof {
                    assert(r@ =~= s@);
                }
                break;
            },
        }
    }
    r
}

/// The scanner's cursor state over one source: the source's characters, the
/// tokens and diagnostics emitted so far, the range `[start, current)` of the
/// token being assembled, and the 1-based line counter.
pub struct Scanner {
    source: String,
    chars: Vec<char>,
    tokens: Vec<Token>,
    diagnostics: Vec<Diagnostic>,
    start: usize,
    current: usize,
    line: usize,
}

impl Scanner {
    /// The source being scanned, as characters.
    pub closed spec fn src(&self) -> Seq<char> {
        self.chars@
    }

    /// The cursor: the position of the next character to examine.
    pub closed spec fn pos(&self) -> int {
        self.current as int
    }

    /// The position of the first character of the token being assembled.
    pub closed spec fn tok_start(&self) -> int {
        self.start as int
    }

    /// The line counter.
    pub closed spec fn line_no(&self) -> int {
        self.line as int
    }

    /// The tokens emitted so far, as they stand in the owned buffer.
    pub closed spec fn raw_tokens(&self) -> Seq<Token> {
        self.tokens@
    }

    /// The diagnostics reported so far, as they stand in the owned buffer.
    pub closed spec fn raw_diags(&self) -> Seq<Diagnostic> {
        self.diagnostics@
    }

    /// The views of the tokens emitted so far.
    pub open spec fn toks(&self) -> Seq<SpecToken> {
        token_views(self.raw_tokens())
    }

    /// The views of the diagnostics reported so far.
    pub open spec fn diags(&self) -> Seq<SpecDiagnostic> {
        diagnostic_views(self.raw_diags())
    }

    /// The scanner's internal consistency: the character buffer spells the
    /// source, the cursor is inside it, the source leaves room for the line
    /// counter, and the line counter never runs ahead of the cursor.
    pub closed spec fn wf(&self) -> bool {
        &&& self.source@ == self.chars@
        &&& self.current <= self.chars@.len()
        &&& self.chars@.len() < usize::MAX
        &&& 1 <= self.line
        &&& self.line <= 1 + self.current
    }

    /// A scanner at the beginning of `source`, on line 1, with nothing
    /// emitted. The length bound is a machine limit: the line counter must
    /// fit in a `usize` even when every character is a newline.
    pub fn new(source: String) -> (r: Scanner)
        requires
            source@.len() < usize::MAX,
        ensures
            r.wf(),
            r.src() == source@,
            r.pos() == 0,
            r.tok_start() == 0,
            r.line_no() == 1,
            r.toks() == Seq::<SpecToken>::empty(),
            r.diags() == Seq::<SpecDiagnostic>::empty(),
    {
        let chars = chars_of(source.as_str());
        let r = Scanner {
            source,
            chars,
            tokens: Vec::new(),
            diagnostics: Vec::new(),
            start: 0,
            current: 0,
            line: 1,
        };
        proof {
            assert(r.toks() =~= Seq::<SpecToken>::empty());
            assert(r.diags() =~= Seq::<SpecDiagnostic>::empty());
        }
        r
    }

    /// True when the cursor has passed the last character.
    fn is_at_end(&self) -> (r: bool)
        requires
            self.wf(),
        ensures
            r == (self.pos() >= self.src().len()),
    {
        self.current >= self.chars.len()
    }

    /// The character at the cursor, or `'\0'` past the end of the source.
    fn peek(&self) -> (c: char)
        requires
            self.wf(),
        ensures
            c == (if self.pos() < self.src().len() {
                self.src()[self.pos()]
            } else {
                '\0'
            }),
    {
        if self.current < self.chars.len() {
            self.chars[self.current]
        } else {
            '\0'
        }
    }

    /// The character after the cursor, or `'\0'` past the end of the source.
    fn peek_next(&self) -> (c: char)
        requires
            self.wf(),
        ensures
            c == (if self.pos() + 1 < self.src().len() {
                self.src()[self.pos() + 1]
            } else {
                '\0'
            }),
    {
        if self.current + 1 < self.chars.len() {
            self.chars[self.current + 1]
        } else {
            '\0'
        }
    }

    /// Consumes and returns the character at the cursor.
    fn advance(&mut self) -> (c: char)
        requires
            old(self).wf(),
            old(self).pos() < old(self).src().len(),
        ensures
            final(self).wf(),
            final(self).src() == old(self).src(),
            final(self).tok_start() == old(self).tok_start(),
            final(self).line_no() == old(self).line_no(),
            final(self).raw_tokens() == old(self).raw_tokens(),
            final(self).raw_diags() == old(self).raw_diags(),
            c == old(self).src()[old(self).pos()],
            final(self).pos() == old(self).pos() + 1,
    {
        let c = self.chars[self.current];
        self.current = self.current + 1;
        c
    }

    /// Consumes the character at the cursor when it is `expected`; otherwise
    /// moves nothing.
    fn matches(&mut self, expected: char) -> (r: bool)
        requires
            old(self).wf(),
        ensures
            final(self).wf(),
            final(self).src() == old(self).src(),
            final(self).tok_start() == old(self).tok_start(),
            final(self).line_no() == old(self).line_no(),
            final(self).raw_tokens() == old(self).raw_tokens(),
            final(self).raw_diags() == old(self).raw_diags(),
            r == (old(self).pos() < old(self).src().len() && old(self).src()[old(self).pos()]
                == expected),
            final(self).pos() == (if r {
                old(self).pos() + 1
            } else {
                old(self).pos()
            }),
    {
        if self.is_at_end() {
            return false;
        }
        if self.chars[self.current] != expected {
            return false;
        }
        self.current = self.current + 1;
        true
    }

    /// Appends the token of `kind` covering `[start, current)`, attributed to
    /// `line`.
    fn add_token(&mut self, kind: TokenKind, line: usize)
        requires
            old(self).wf(),
            old(self).tok_start() <= old(self).pos(),
        ensures
            final(self).wf(),
            final(self).src() == old(self).src(),
            final(self).tok_start() == old(self).tok_start(),
            final(self).line_no() == old(self).line_no(),
            final(self).pos() == old(self).pos(),
            final(self).raw_diags() == old(self).raw_diags(),
            final(self).toks() == old(self).toks() + seq![
                made_token(
                    kind,
                    old(self).src(),
                    old(self).tok_start(),
                    old(self).pos(),
                    line as int,
                ),
            ],
    {
        let lexeme: String = self.source.as_str().substring_char(self.start, self.current)
            .to_owned();
        let token = Token { kind, lexeme, line, start: self.start, end: self.current };
        self.tokens.push(token);
        proof {
            assert(self.toks() =~= old(self).toks() + seq![
                made_token(
                    kind,
                    old(self).src(),
                    old(self).tok_start(),
                    old(self).pos(),
                    line as int,
                ),
            ]);
        }
    }

    /// Appends the diagnostic of `kind`, attributed to `line`.
    fn report(&mut self, kind: DiagnosticKind, line: usize)
        requires
            old(self).wf(),
        ensures
            final(self).wf(),
            final(self).src() == old(self).src(),
            final(self).tok_start() == old(self).tok_start(),
            final(self).line_no() == old(self).line_no(),
            final(self).pos() == old(self).pos(),
            final(self).raw_tokens() == old(self).raw_tokens(),
            final(self).diags() == old(self).diags() + seq![made_diag(kind, line as int)],
    {
        self.diagnostics.push(Diagnostic { kind, line });
        proof {
            assert(self.diags() =~= old(self).diags() + seq![made_diag(kind, line as int)]);
        }
    }

    /// Scans the string literal whose opening quote stands at `start`, the
    /// cursor just past it: the literal token through the closing quote, or
    /// an unterminated-string diagnostic at the end of the source.
    fn add_string(&mut self)
        requires
            old(self).wf(),
            0 <= old(self).tok_start(),
            old(self).tok_start() + 1 == old(self).pos(),
            old(self).pos() <= old(self).src().len(),
            old(self).src()[old(self).tok_start()] == '"',
        ensures
            final(self).wf(),
            final(self).src() == old(self).src(),
            final(self).tok_start() == old(self).tok_start(),
            final(self).pos() == crate::model::string_step(
                old(self).src(),
                old(self).tok_start(),
                old(self).line_no(),
            ).next,
            final(self).line_no() == crate::model::string_step(
                old(self).src(),
                old(self).tok_start(),
                old(self).line_no(),
            ).line,
            final(self).toks() == old(self).toks() + step_tokens(
                crate::model::string_step(
                    old(self).src(),
                    old(self).tok_start(),
                    old(self).line_no(),
                ),
            ),
            final(self).diags() == old(self).diags() + step_diags(
                crate::model::string_step(
                    old(self).src(),
                    old(self).tok_start(),
                    old(self).line_no(),
                ),
            ),
    {
        let line_start: usize = self.line;
        let ghost s = self.src();
        let ghost q = self.tok_start();
        let ghost l0 = self.line_no();
        while self.peek() != '"' && !self.is_at_end()
            invariant
                self.wf(),
                self.src() == s,
                self.tok_start() == q,
                self.raw_tokens() == old(self).raw_tokens(),
                self.raw_diags() == old(self).raw_diags(),
                0 <= q,
                q + 1 <= self.pos() <= s.len(),
                s[q] == '"',
                close_quote(s, q + 1) == close_quote(s, self.pos()),
                self.line_no() == l0 + newlines(s, q + 1, self.pos()),
                1 <= l0,
                l0 <= q + 2,
            decreases s.len() - self.pos(),
        {
            let c = self.advance();
            if c == '\n' {
                self.line = self.line + 1;
            }
        }
        if self.is_at_end() {
            let ln: usize = self.line;
            self.report(DiagnosticKind::UnterminatedString, ln);
            proof {
                let st = crate::model::string_step(s, q, l0);
                assert(self.toks() =~= old(self).toks() + step_tokens(st));
                assert(self.diags() =~= old(self).diags() + step_diags(st));
            }
            return;
        }
        let _c = self.advance();
        self.add_token(TokenKind::StringLit, line_start);
        proof {
            let st = crate::model::string_step(s, q, l0);
            assert(self.toks() =~= old(self).toks() + step_tokens(st));
            assert(self.diags() =~= old(self).diags() + step_diags(st));
        }
    }

    /// Scans the number literal whose first digit stands at `start`, the
    /// cursor just past it: the maximal digit run, extended over a dot only
    /// when a digit follows the dot.
    fn add_number(&mut self)
        requires
            old(self).wf(),
            0 <= old(self).tok_start(),
            old(self).tok_start() + 1 == old(self).pos(),
            old(self).pos() <= old(self).src().len(),
        ensures
            final(self).wf(),
            final(self).src() == old(self).src(),
            final(self).tok_start() == old(self).tok_start(),
            final(self).line_no() == old(self).line_no(),
            final(self).raw_diags() == old(self).raw_diags(),
            final(self).pos() == crate::model::number_step(
                old(self).src(),
                old(self).tok_start(),
                old(self).line_no(),
            ).next,
            final(self).toks() == old(self).toks() + step_tokens(
                crate::model::number_step(
                    old(self).src(),
                    old(self).tok_start(),
                    old(self).line_no(),
                ),
            ),
    {
        let ghost s = self.src();
        let ghost q = self.tok_start();
        let ln: usize = self.line;
        while digit_char(self.peek())
            invariant
                self.wf(),
                self.src() == s,
                self.tok_start() == q,
                self.raw_tokens() == old(self).raw_tokens(),
                self.raw_diags() == old(self).raw_diags(),
                self.line_no() == old(self).line_no(),
                0 <= q,
                q + 1 <= self.pos() <= s.len(),
                digits_end(s, q + 1) == digits_end(s, self.pos()),
            decreases s.len() - self.pos(),
        {
            let _c = self.advance();
        }
        let ghost whole = digits_end(s, q + 1);
        if self.peek() == '.' && digit_char(self.peek_next()) {
            let _c = self.advance();
            while digit_char(self.peek())
                invariant
                    self.wf(),
                    self.src() == s,
                    self.tok_start() == q,
                    self.raw_tokens() == old(self).raw_tokens(),
                    self.raw_diags() == old(self).raw_diags(),
                    self.line_no() == old(self).line_no(),
                    0 <= q,
                    whole + 1 <= self.pos() <= s.len(),
                    whole == digits_end(s, q + 1),
                    digits_end(s, whole + 1) == digits_end(s, self.pos()),
                decreases s.len() - self.pos(),
            {
                let _c = self.advance();
            }
        }
        self.add_token(TokenKind::Number, ln);
    }

    /// Scans the identifier or reserved word whose first letter stands at
    /// `start`, the cursor just past it: the maximal run of letters and
    /// digits, looked up in the keyword table.
    fn add_identifier(&mut self)
        requires
            old(self).wf(),
            0 <= old(self).tok_start(),
            old(self).tok_start() + 1 == old(self).pos(),
            old(self).pos() <= old(self).src().len(),
        ensures
            final(self).wf(),
            final(self).src() == old(self).src(),
            final(self).tok_start() == old(self).tok_start(),
            final(self).line_no() == old(self).line_no(),
            final(self).raw_diags() == old(self).raw_diags(),
            final(self).pos() == crate::model::identifier_step(
                old(self).src(),
                old(self).tok_start(),
                old(self).line_no(),
            ).next,
            final(self).toks() == old(self).toks() + step_tokens(
                crate::model::identifier_step(
                    old(self).src(),
                    old(self).tok_start(),
                    old(self).line_no(),
                ),
            ),
    {
        let ghost s = self.src();
        let ghost q = self.tok_start();
        let ln: usize = self.line;
        while alnum_char(self.peek())
            invariant
                self.wf(),
                self.src() == s,
                self.tok_start() == q,
                self.raw_tokens() == old(self).raw_tokens(),
                self.raw_diags() == old(self).raw_diags(),
                self.line_no() == old(self).line_no(),
                0 <= q,
                q + 1 <= self.pos() <= s.len(),
                alnum_end(s, q + 1) == alnum_end(s, self.pos()),
            decreases s.len() - self.pos(),
        {
            let _c = self.advance();
        }
        let spelling: &str = self.source.as_str().substring_char(self.start, self.current);
        let kind = match match_keywords(spelling) {
            Some(k) => k,
            None => TokenKind::Identifier,
        };
        self.add_token(kind, ln);
    }

    /// One classification step: consumes one token, comment, whitespace run
    /// of one character, or offending character at the cursor, and emits what
    /// the model's `scan_step` says it emits.
    pub fn scan_token(&mut self)
        requires
            old(self).wf(),
            old(self).pos() < old(self).src().len(),
            old(self).tok_start() == old(self).pos(),
        ensures
            final(self).wf(),
            final(self).src() == old(self).src(),
            final(self).tok_start() == old(self).tok_start(),
            final(self).pos() == scan_step(
                old(self).src(),
                old(self).pos(),
                old(self).line_no(),
            ).next,
            final(self).line_no() == scan_step(
                old(self).src(),
                old(self).pos(),
                old(self).line_no(),
            ).line,
            final(self).toks() == old(self).toks() + step_tokens(
                scan_step(old(self).src(), old(self).pos(), old(self).line_no()),
            ),
            final(self).diags() == old(self).diags() + step_diags(
                scan_step(old(self).src(), old(self).pos(), old(self).line_no()),
            ),
    {
        let ghost s = self.src();
        let ghost p = self.pos();
        let ghost l0 = self.line_no();
        let c = self.advance();
        let ln: usize = self.line;
        if c == '(' {
            self.add_token(TokenKind::LeftParen, ln);
        } else if c == ')' {
            self.add_token(TokenKind::RightParen, ln);
        } else if c == '{' {
            self.add_token(TokenKind::LeftBrace, ln);
        } else if c == '}' {
            self.add_token(TokenKind::RightBrace, ln);
        } else if c == ',' {
            self.add_token(TokenKind::Comma, ln);
        } else if c == '.' {
            self.add_token(TokenKind::Dot, ln);
        } else if c == '-' {
            self.add_token(TokenKind::Minus, ln);
        } else if c == '+' {
            self.add_token(TokenKind::Plus, ln);
        } else if c == ';' {
            self.add_token(TokenKind::Semicolon, ln);
        } else if c == '*' {
            self.add_token(TokenKind::Star, ln);
        } else if c == '!' {
            if self.matches('=') {
                self.add_token(TokenKind::BangEqual, ln);
            } else {
                self.add_token(TokenKind::Bang, ln);
            }
        } else if c == '=' {
            if self.matches('=') {
                self.add_token(TokenKind::EqualEqual, ln);
            } else {
                self.add_token(TokenKind::Equal, ln);
            }
        } else if c == '<' {
            if self.matches('=') {
                self.add_token(TokenKind::LessEqual, ln);
            } else {
                self.add_token(TokenKind::Less, ln);
            }
        } else if c == '>' {
            if self.matches('=') {
                self.add_token(TokenKind::GreaterEqual, ln);
            } else {
                self.add_token(TokenKind::Greater, ln);
            }
        } else if c == '/' {
            if self.matches('/') {
                let ghost c0 = self.pos();
                while self.peek() != '\n' && !self.is_at_end()
                    invariant
                        self.wf(),
                        self.src() == s,
                        self.tok_start() == old(self).tok_start(),
                        self.raw_tokens() == old(self).raw_tokens(),
                        self.raw_diags() == old(self).raw_diags(),
                        self.line_no() == l0,
                        0 <= c0,
                        c0 <= self.pos() <= s.len(),
                        comment_end(s, c0) == comment_end(s, self.pos()),
                    decreases s.len() - self.pos(),
                {
                    let _c = self.advance();
                }
            } else {
                self.add_token(TokenKind::Slash, ln);
            }
        } else if c == '"' {
            self.add_string();
        } else if c == ' ' || c == '\r' || c == '\t' {
        } else if c == '\n' {
            self.line = self.line + 1;
        } else if digit_char(c) {
            self.add_number();
        } else if alpha_char(c) {
            self.add_identifier();
        } else {
            self.report(DiagnosticKind::UnexpectedCharacter, ln);
        }
        proof {
            let st = scan_step(s, p, l0);
            assert(self.toks() =~= old(self).toks() + step_tokens(st));
            assert(self.diags() =~= old(self).diags() + step_diags(st));
        }
    }

    /// Scans the whole remaining source, appends the end-of-source token, and
    /// hands out the token buffer. The tokens, the diagnostics and the final
    /// line are exactly those of the model's scan.
    pub fn scan_tokens(&mut self) -> (r: &Vec<Token>)
        requires
            old(self).wf(),
        ensures
            final(self).wf(),
            final(self).src() == old(self).src(),
            final(self).pos() == old(self).src().len(),
            final(self).line_no() == scan_rest(
                old(self).src(),
                old(self).pos(),
                old(self).line_no(),
            ).line,
            final(self).toks() == old(self).toks() + scan_rest(
                old(self).src(),
                old(self).pos(),
                old(self).line_no(),
            ).tokens + seq![
                eof_token(
                    old(self).src(),
                    scan_rest(old(self).src(), old(self).pos(), old(self).line_no()).line,
                ),
            ],
            final(self).diags() == old(self).diags() + scan_rest(
                old(self).src(),
                old(self).pos(),
                old(self).line_no(),
            ).diags,
            r@ == final(self).raw_tokens(),
            (old(self).pos() == 0 && old(self).line_no() == 1 && old(self).toks()
                == Seq::<SpecToken>::empty() && old(self).diags()
                == Seq::<SpecDiagnostic>::empty()) ==> {
                &&& final(self).toks() == scanned_tokens(old(self).src())
                &&& final(self).diags() == scanned_diags(old(self).src())
                &&& final(self).line_no() == final_line(old(self).src())
            },
    {
        let ghost s = self.src();
        let ghost p0 = self.pos();
        let ghost l0 = self.line_no();
        let ghost target = scan_rest(s, p0, l0);
        let ghost mut done_toks: Seq<SpecToken> = Seq::empty();
        let ghost mut done_diags: Seq<SpecDiagnostic> = Seq::empty();
        proof {
            assert(self.toks() =~= old(self).toks() + done_toks);
            assert(self.diags() =~= old(self).diags() + done_diags);
            assert(target.tokens =~= done_toks + scan_rest(s, self.pos(), self.line_no()).tokens);
            assert(target.diags =~= done_diags + scan_rest(s, self.pos(), self.line_no()).diags);
        }
        while !self.is_at_end()
            invariant
                self.wf(),
                self.src() == s,
                self.toks() == old(self).toks() + done_toks,
                self.diags() == old(self).diags() + done_diags,
                target == scan_rest(s, p0, l0),
                target.tokens == done_toks + scan_rest(s, self.pos(), self.line_no()).tokens,
                target.diags == done_diags + scan_rest(s, self.pos(), self.line_no()).diags,
                target.line == scan_rest(s, self.pos(), self.line_no()).line,
            decreases s.len() - self.pos(),
        {
            self.start = self.current;
            let ghost p = self.pos();
            let ghost l = self.line_no();
            self.scan_token();
            proof {
                crate::model::lemma_step_next(s, p, l);
                let st = scan_step(s, p, l);
                done_toks = done_toks + step_tokens(st);
                done_diags = done_diags + step_diags(st);
                assert(target.tokens =~= done_toks + scan_rest(
                    s,
                    self.pos(),
                    self.line_no(),
                ).tokens);
                assert(target.diags =~= done_diags + scan_rest(s, self.pos(), self.line_no()).diags);
                assert(self.toks() =~= old(self).toks() + done_toks);
                assert(self.diags() =~= old(self).diags() + done_diags);
            }
        }
        proof {
            assert(target.tokens =~= done_toks);
            assert(target.diags =~= done_diags);
        }
        let ln: usize = self.line;
        let n: usize = self.chars.len();
        self.tokens.push(
            Token { kind: TokenKind::Eof, lexeme: String::new(), line: ln, start: n, end: n },
        );
        proof {
            assert(self.toks() =~= old(self).toks() + target.tokens + seq![
                eof_token(s, target.line),
            ]);
            if old(self).pos() == 0 && old(self).line_no() == 1 && old(self).toks()
                == Seq::<SpecToken>::empty() && old(self).diags()
                == Seq::<SpecDiagnostic>::empty() {
                assert(self.toks() =~= scanned_tokens(s));
                assert(self.diags() =~= scanned_diags(s));
            }
        }
        &self.tokens
    }

    /// The tokens emitted so far.
    pub fn tokens(&self) -> (r: &Vec<Token>)
        ensures
            r@ == self.raw_tokens(),
    {
        &self.tokens
    }

    /// The diagnostics reported so far, in source order.
    pub fn diagnostics(&self) -> (r: &Vec<Diagnostic>)
        ensures
            r@ == self.raw_diags(),
    {
        &self.diagnostics
    }

    /// The line counter.
    pub fn current_line(&self) -> (r: usize)
        ensures
            r as int == self.line_no(),
    {
        self.line
    }
}

} // verus!
