//! A verified lexical scanner for the Lox language.
//!
//! The scanner turns a source text into the ordered sequence of Lox tokens,
//! collecting a diagnostic for each lexical failure instead of stopping.
//! `model` states what scanning means as a mathematical function over the
//! source's characters; `scanner` implements it and is proved against it;
//! `laws` proves the global properties of the token sequence.

pub mod keywords;
pub mod laws;
pub mod model;
pub mod scanner;
pub mod token;

pub use scanner::Scanner;
pub use token::Diagnostic;
pub use token::DiagnosticKind;
pub use token::Token;
pub use token::TokenKind;
