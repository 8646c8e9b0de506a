//! The token model: the closed set of token kinds, the token record, and the
//! diagnostics a scan can produce.

use vstd::prelude::*;
use vstd::string::StrSliceExecFns;
use vstd::string::StringExecFns;

verus! {

/// The closed set of Lox token kinds: single-character punctuation,
/// one-or-two-character operators, literals, reserved words, and the
/// end-of-source sentinel.
///
/// A `StringLit` token's literal payload is the content between the quotes of
/// its lexeme; a `Number` token's numeric value is read off its lexeme, which
/// is a digit run with at most one interior dot.
#[derive(Clone, Copy, PartialEq, Eq, Structural, Debug)]
pub enum TokenKind {
    LeftParen,
    RightParen,
    LeftBrace,
    RightBrace,
    Comma,
    Dot,
    Minus,
    Plus,
    Semicolon,
    Slash,
    Star,
    Bang,
    BangEqual,
    Equal,
    EqualEqual,
    Greater,
    GreaterEqual,
    Less,
    LessEqual,
    Identifier,
    StringLit,
    Number,
    And,
    Class,
    Else,
    False,
    Fun,
    For,
    If,
    Nil,
    Or,
    Print,
    Return,
    Super,
    This,
    True,
    Var,
    While,
    Eof,
}

/// An immutable token: its kind, the exact slice of source it covers, the
/// 1-based line its first character stands on, and the half-open range of
/// character positions `[start, end)` it covers. The lexeme of `Eof` is empty
/// and its range is the empty range at the end of the source.
#[derive(Clone, PartialEq, Eq, Debug)]
pub struct Token {
    pub kind: TokenKind,
    pub lexeme: String,
    pub line: usize,
    pub start: usize,
    pub end: usize,
}

/// The mathematical shadow of a `Token`: the same record over `Seq<char>`
/// and unbounded integers.
pub struct SpecToken {
    pub kind: TokenKind,
    pub lexeme: Seq<char>,
    pub line: int,
    pub start: int,
    pub end: int,
}

impl View for Token {
    type V = SpecToken;

    open spec fn view(&self) -> SpecToken {
        SpecToken {
            kind: self.kind,
            lexeme: self.lexeme@,
            line: self.line as int,
            start: self.start as int,
            end: self.end as int,
        }
    }
}

/// The two lexical failures: a character at which no token can begin, and a
/// string literal still open at the end of the source.
#[derive(Clone, Copy, PartialEq, Eq, Structural, Debug)]
pub enum DiagnosticKind {
    UnexpectedCharacter,
    UnterminatedString,
}

/// One reported lexical failure: its kind and the 1-based line it was
/// reported on.
#[derive(Clone, Copy, PartialEq, Eq, Structural, Debug)]
pub struct Diagnostic {
    pub kind: DiagnosticKind,
    pub line: usize,
}

/// The mathematical shadow of a `Diagnostic`.
pub struct SpecDiagnostic {
    pub kind: DiagnosticKind,
    pub line: int,
}

impl View for Diagnostic {
    type V = SpecDiagnostic;

    open spec fn view(&self) -> SpecDiagnostic {
        SpecDiagnostic { kind: self.kind, line: self.line as int }
    }
}

/// The name of a token kind, as `kind_name` returns it.
pub open spec fn spec_kind_name(k: TokenKind) -> Seq<char> {
    match k {
        TokenKind::LeftParen => "LeftParen"@,
        TokenKind::RightParen => "RightParen"@,
        TokenKind::LeftBrace => "LeftBrace"@,
        TokenKind::RightBrace => "RightBrace"@,
        TokenKind::Comma => "Comma"@,
        TokenKind::Dot => "Dot"@,
        TokenKind::Minus => "Minus"@,
        TokenKind::Plus => "Plus"@,
        TokenKind::Semicolon => "Semicolon"@,
        TokenKind::Slash => "Slash"@,
        TokenKind::Star => "Star"@,
        TokenKind::Bang => "Bang"@,
        TokenKind::BangEqual => "BangEqual"@,
        TokenKind::Equal => "Equal"@,
        TokenKind::EqualEqual => "EqualEqual"@,
        TokenKind::Greater => "Greater"@,
        TokenKind::GreaterEqual => "GreaterEqual"@,
        TokenKind::Less => "Less"@,
        TokenKind::LessEqual => "LessEqual"@,
        TokenKind::Identifier => "Identifier"@,
        TokenKind::StringLit => "StringLit"@,
        TokenKind::Number => "Number"@,
        TokenKind::And => "And"@,
        TokenKind::Class => "Class"@,
        TokenKind::Else => "Else"@,
        TokenKind::False => "False"@,
        TokenKind::Fun => "Fun"@,
        TokenKind::For => "For"@,
        TokenKind::If => "If"@,
        TokenKind::Nil => "Nil"@,
        TokenKind::Or => "Or"@,
        TokenKind::Print => "Print"@,
        TokenKind::Return => "Return"@,
        TokenKind::Super => "Super"@,
        TokenKind::This => "This"@,
        TokenKind::True => "True"@,
        TokenKind::Var => "Var"@,
        TokenKind::While => "While"@,
        TokenKind::Eof => "Eof"@,
    }
}

/// The name of a token kind, for rendering.
pub fn kind_name(k: TokenKind) -> (r: &'static str)
    ensures
        r@ == spec_kind_name(k),
{
    match k {
        TokenKind::LeftParen => "LeftParen",
        TokenKind::RightParen => "RightParen",
        TokenKind::LeftBrace => "LeftBrace",
        TokenKind::RightBrace => "RightBrace",
        TokenKind::Comma => "Comma",
        TokenKind::Dot => "Dot",
        TokenKind::Minus => "Minus",
        TokenKind::Plus => "Plus",
        TokenKind::Semicolon => "Semicolon",
        TokenKind::Slash => "Slash",
        TokenKind::Star => "Star",
        TokenKind::Bang => "Bang",
        TokenKind::BangEqual => "BangEqual",
        TokenKind::Equal => "Equal",
        TokenKind::EqualEqual => "EqualEqual",
        TokenKind::Greater => "Greater",
        TokenKind::GreaterEqual => "GreaterEqual",
        TokenKind::Less => "Less",
        TokenKind::LessEqual => "LessEqual",
        TokenKind::Identifier => "Identifier",
        TokenKind::StringLit => "StringLit",
        TokenKind::Number => "Number",
        TokenKind::And => "And",
        TokenKind::Class => "Class",
        TokenKind::Else => "Else",
        TokenKind::False => "False",
        TokenKind::Fun => "Fun",
        TokenKind::For => "For",
        TokenKind::If => "If",
        TokenKind::Nil => "Nil",
        TokenKind::Or => "Or",
        TokenKind::Print => "Print",
        TokenKind::Return => "Return",
        TokenKind::Super => "Super",
        TokenKind::This => "This",
        TokenKind::True => "True",
        TokenKind::Var => "Var",
        TokenKind::While => "While",
        TokenKind::Eof => "Eof",
    }
}

impl Token {
    /// A deterministic, human-readable rendering: the kind's name, a space,
    /// and the lexeme.
    pub fn render(&self) -> (r: String)
        ensures
            r@ == spec_kind_name(self.kind) + " "@ + self.lexeme@,
    {
        let named = String::from_str(kind_name(self.kind));
        let spaced = named.concat(" ");
        spaced.concat(self.lexeme.as_str())
    }

    /// The literal payload of a string token: the content of its lexeme
    /// between the two quotes. `None` for every other token.
    pub fn string_literal(&self) -> (r: Option<String>)
        ensures
            r is Some <==> (self.kind == TokenKind::StringLit && self.lexeme@.len() >= 2),
            r is Some ==> r.unwrap()@ == self.lexeme@.subrange(1, self.lexeme@.len() - 1),
    {
        if !matches!(self.kind, TokenKind::StringLit) {
            return None;
        }
        let n = self.lexeme.as_str().unicode_len();
        if n < 2 {
            return None;
        }
        Some(self.lexeme.as_str().substring_char(1, n - 1).to_owned())
    }
}

impl Diagnostic {
    /// The message the diagnostic carries to the sink.
    pub fn message(&self) -> (r: String)
        ensures
            self.kind == DiagnosticKind::UnexpectedCharacter ==> r@ == "Unexpected character"@,
            self.kind == DiagnosticKind::UnterminatedString ==> r@ == "Unterminated string"@,
    {
        match self.kind {
            DiagnosticKind::UnexpectedCharacter => String::from_str("Unexpected character"),
            DiagnosticKind::UnterminatedString => String::from_str("Unterminated string"),
        }
    }
}

/// The views of a sequence of tokens, element for element.
pub open spec fn token_views(ts: Seq<Token>) -> Seq<SpecToken> {
    ts.map_values(|t: Token| t@)
}

/// The views of a sequence of diagnostics, element for element.
pub open spec fn diagnostic_views(ds: Seq<Diagnostic>) -> Seq<SpecDiagnostic> {
    ds.map_values(|d: Diagnostic| d@)
}

} // verus!
