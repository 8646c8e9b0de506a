//! The keyword table: the immutable, case-sensitive mapping from the sixteen
//! reserved-word spellings to their token kinds.

use vstd::prelude::*;
use vstd::string::StringExecFns;

use crate::token::TokenKind;

verus! {

/// The keyword table as mathematics: the kind a spelling names, or `None`
/// for every other spelling.
pub open spec fn spec_keyword(s: Seq<char>) -> Option<TokenKind> {
    if s == "and"@ {
        Some(TokenKind::And)
    } else if s == "class"@ {
        Some(TokenKind::Class)
    } else if s == "else"@ {
        Some(TokenKind::Else)
    } else if s == "false"@ {
        Some(TokenKind::False)
    } else if s == "fun"@ {
        Some(TokenKind::Fun)
    } else if s == "for"@ {
        Some(TokenKind::For)
    } else if s == "if"@ {
        Some(TokenKind::If)
    } else if s == "nil"@ {
        Some(TokenKind::Nil)
    } else if s == "or"@ {
        Some(TokenKind::Or)
    } else if s == "print"@ {
        Some(TokenKind::Print)
    } else if s == "return"@ {
        Some(TokenKind::Return)
    } else if s == "super"@ {
        Some(TokenKind::Super)
    } else if s == "this"@ {
        Some(TokenKind::This)
    } else if s == "true"@ {
        Some(TokenKind::True)
    } else if s == "var"@ {
        Some(TokenKind::Var)
    } else if s == "while"@ {
        Some(TokenKind::While)
    } else {
        None
    }
}

/// The kind the reserved word `s` names, or `None` for any other spelling.
pub fn match_keywords(s: &str) -> (r: Option<TokenKind>)
    ensures
        r == spec_keyword(s@),
{
    let owned = String::from_str(s);
    if owned.eq(&String::from_str("and")) {
        Some(TokenKind::And)
    } else if owned.eq(&String::from_str("class")) {
        Some(TokenKind::Class)
    } else if owned.eq(&String::from_str("else")) {
        Some(TokenKind::Else)
    } else if owned.eq(&String::from_str("false")) {
        Some(TokenKind::False)
    } else if owned.eq(&String::from_str("fun")) {
        Some(TokenKind::Fun)
    } else if owned.eq(&String::from_str("for")) {
        Some(TokenKind::For)
    } else if owned.eq(&String::from_str("if")) {
        Some(TokenKind::If)
    } else if owned.eq(&String::from_str("nil")) {
        Some(TokenKind::Nil)
    } else if owned.eq(&String::from_str("or")) {
        Some(TokenKind::Or)
    } else if owned.eq(&String::from_str("print")) {
        Some(TokenKind::Print)
    } else if owned.eq(&String::from_str("return")) {
        Some(TokenKind::Return)
    } else if owned.eq(&String::from_str("super")) {
        Some(TokenKind::Super)
    } else if owned.eq(&String::from_str("this")) {
        Some(TokenKind::This)
    } else if owned.eq(&String::from_str("true")) {
        Some(TokenKind::True)
    } else if owned.eq(&String::from_str("var")) {
        Some(TokenKind::Var)
    } else if owned.eq(&String::from_str("while")) {
        Some(TokenKind::While)
    } else {
        None
    }
}

} // verus!
