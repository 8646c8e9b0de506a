use lox_scanner::Diagnostic;
use lox_scanner::DiagnosticKind;
use lox_scanner::Scanner;
use lox_scanner::Token;
use lox_scanner::TokenKind;
use lox_scanner::keywords::match_keywords;

fn scan(src: &str) -> (Vec<Token>, Vec<Diagnostic>, usize) {
    let mut scanner = Scanner::new(String::from(src));
    let tokens = scanner.scan_tokens().clone();
    let diags = scanner.diagnostics().clone();
    let line = scanner.current_line();
    (tokens, diags, line)
}

fn kinds(tokens: &[Token]) -> Vec<TokenKind> {
    tokens.iter().map(|t| t.kind).collect()
}

fn reconstruct(src: &str, tokens: &[Token]) -> String {
    let chars: Vec<char> = src.chars().collect();
    let mut out = String::new();
    let mut pos: usize = 0;
    for t in tokens {
        for i in pos..t.start {
            out.push(chars[i]);
        }
        out.push_str(&t.lexeme);
        pos = t.end;
    }
    for i in pos..chars.len() {
        out.push(chars[i]);
    }
    out
}

#[test]
fn empty_source_single_eof() {
    let (tokens, diags, line) = scan("");
    assert_eq!(tokens.len(), 1);
    assert_eq!(tokens[0].kind, TokenKind::Eof);
    assert_eq!(tokens[0].lexeme, "");
    assert_eq!(tokens[0].line, 1);
    assert!(diags.is_empty());
    assert_eq!(line, 1);
}

#[test]
fn newlines_only_eof_on_line_four() {
    let (tokens, diags, line) = scan("\n\n\n");
    assert_eq!(kinds(&tokens), vec![TokenKind::Eof]);
    assert_eq!(tokens[0].line, 4);
    assert!(diags.is_empty());
    assert_eq!(line, 4);
}

#[test]
fn multiline_string_keeps_opening_line() {
    let (tokens, diags, line) = scan("\"ab\nc\"");
    assert_eq!(kinds(&tokens), vec![TokenKind::StringLit, TokenKind::Eof]);
    assert_eq!(tokens[0].line, 1);
    assert_eq!(tokens[0].string_literal(), Some(String::from("ab\nc")));
    assert!(diags.is_empty());
    assert_eq!(line, 2);
}

#[test]
fn number_then_dot() {
    let (tokens, diags, _) = scan("123.");
    assert_eq!(kinds(&tokens), vec![TokenKind::Number, TokenKind::Dot, TokenKind::Eof]);
    assert_eq!(tokens[0].lexeme, "123");
    assert_eq!(tokens[0].lexeme.parse::<f64>().unwrap(), 123.0);
    assert_eq!(tokens[1].lexeme, ".");
    assert!(diags.is_empty());
}

#[test]
fn fractional_number() {
    let (tokens, diags, _) = scan("123.456");
    assert_eq!(kinds(&tokens), vec![TokenKind::Number, TokenKind::Eof]);
    assert_eq!(tokens[0].lexeme, "123.456");
    assert_eq!(tokens[0].lexeme.parse::<f64>().unwrap(), 123.456);
    assert!(diags.is_empty());
}

#[test]
fn comment_runs_to_line_end() {
    let (tokens, diags, _) = scan("//xyz\n+");
    assert_eq!(kinds(&tokens), vec![TokenKind::Plus, TokenKind::Eof]);
    assert_eq!(tokens[0].line, 2);
    assert!(diags.is_empty());
}

#[test]
fn unterminated_string_reports_and_emits_no_token() {
    let (tokens, diags, _) = scan("\"unterminated");
    assert_eq!(kinds(&tokens), vec![TokenKind::Eof]);
    assert_eq!(diags.len(), 1);
    assert_eq!(diags[0].kind, DiagnosticKind::UnterminatedString);
    assert_eq!(diags[0].line, 1);
}

#[test]
fn unexpected_character_reports_then_eof() {
    let (tokens, diags, _) = scan("@");
    assert_eq!(kinds(&tokens), vec![TokenKind::Eof]);
    assert_eq!(diags.len(), 1);
    assert_eq!(diags[0].kind, DiagnosticKind::UnexpectedCharacter);
    assert_eq!(diags[0].line, 1);
}

#[test]
fn parens() {
    let (tokens, diags, _) = scan("()");
    assert_eq!(
        kinds(&tokens),
        vec![TokenKind::LeftParen, TokenKind::RightParen, TokenKind::Eof]
    );
    assert!(diags.is_empty());
}

#[test]
fn two_character_operators() {
    let (tokens, diags, _) = scan("!= == <= >=");
    assert_eq!(
        kinds(&tokens),
        vec![
            TokenKind::BangEqual,
            TokenKind::EqualEqual,
            TokenKind::LessEqual,
            TokenKind::GreaterEqual,
            TokenKind::Eof
        ]
    );
    assert!(diags.is_empty());
}

#[test]
fn var_declaration() {
    let (tokens, diags, _) = scan("var x = 1.5;");
    assert_eq!(
        kinds(&tokens),
        vec![
            TokenKind::Var,
            TokenKind::Identifier,
            TokenKind::Equal,
            TokenKind::Number,
            TokenKind::Semicolon,
            TokenKind::Eof
        ]
    );
    assert_eq!(tokens[1].lexeme, "x");
    assert_eq!(tokens[3].lexeme.parse::<f64>().unwrap(), 1.5);
    assert!(diags.is_empty());
}

#[test]
fn if_print_statement() {
    let (tokens, diags, _) = scan("if (true) print \"hi\";");
    assert_eq!(
        kinds(&tokens),
        vec![
            TokenKind::If,
            TokenKind::LeftParen,
            TokenKind::True,
            TokenKind::RightParen,
            TokenKind::Print,
            TokenKind::StringLit,
            TokenKind::Semicolon,
            TokenKind::Eof
        ]
    );
    assert_eq!(tokens[5].string_literal(), Some(String::from("hi")));
    assert!(diags.is_empty());
}

#[test]
fn comment_then_expression() {
    let (tokens, diags, line) = scan("// comment\n1+2");
    assert_eq!(
        kinds(&tokens),
        vec![TokenKind::Number, TokenKind::Plus, TokenKind::Number, TokenKind::Eof]
    );
    assert_eq!(tokens[0].lexeme.parse::<f64>().unwrap(), 1.0);
    assert_eq!(tokens[2].lexeme.parse::<f64>().unwrap(), 2.0);
    assert_eq!(line, 2);
    assert!(diags.is_empty());
}

#[test]
fn short_unterminated_string() {
    let (tokens, diags, _) = scan("\"a");
    assert_eq!(kinds(&tokens), vec![TokenKind::Eof]);
    assert_eq!(diags.len(), 1);
    assert_eq!(diags[0].kind, DiagnosticKind::UnterminatedString);
    assert_eq!(diags[0].line, 1);
}

#[test]
fn exactly_one_eof_at_the_end() {
    let (tokens, _, _) = scan("var x = 1;");
    let eofs = tokens.iter().filter(|t| t.kind == TokenKind::Eof).count();
    assert_eq!(eofs, 1);
    assert_eq!(tokens.last().unwrap().kind, TokenKind::Eof);
    assert_eq!(tokens.last().unwrap().lexeme, "");
}

#[test]
fn final_line_counts_newlines() {
    let src = "a\nb\n\nc";
    let (tokens, _, line) = scan(src);
    let newline_count = src.chars().filter(|c| *c == '\n').count();
    assert_eq!(line, newline_count + 1);
    assert_eq!(tokens.last().unwrap().line, 4);
}

#[test]
fn lexemes_are_exact_source_slices() {
    let src = "var x = 1.5; // note\n\"s\" != nil";
    let chars: Vec<char> = src.chars().collect();
    let (tokens, _, _) = scan(src);
    for t in &tokens {
        let expect: String = chars[t.start..t.end].iter().collect();
        assert_eq!(t.lexeme, expect);
    }
}

#[test]
fn maximal_munch_prefers_longer_tokens() {
    let (tokens, _, _) = scan("===");
    assert_eq!(
        kinds(&tokens),
        vec![TokenKind::EqualEqual, TokenKind::Equal, TokenKind::Eof]
    );
    let (tokens, _, _) = scan("123abc");
    assert_eq!(
        kinds(&tokens),
        vec![TokenKind::Number, TokenKind::Identifier, TokenKind::Eof]
    );
    assert_eq!(tokens[0].lexeme, "123");
    assert_eq!(tokens[1].lexeme, "abc");
    let (tokens, _, _) = scan("1.5.6");
    assert_eq!(
        kinds(&tokens),
        vec![TokenKind::Number, TokenKind::Dot, TokenKind::Number, TokenKind::Eof]
    );
    assert_eq!(tokens[0].lexeme, "1.5");
    assert_eq!(tokens[2].lexeme, "6");
}

#[test]
fn round_trip_reconstructs_source() {
    let src = "var x = 1.5; // note\n\"a b\"\t+ foo123";
    let (tokens, _, _) = scan(src);
    assert_eq!(reconstruct(src, &tokens), src);
}

#[test]
fn round_trip_with_errors_and_comment_tail() {
    let src = "@+ //tail";
    let (tokens, _, _) = scan(src);
    assert_eq!(reconstruct(src, &tokens), src);
}

#[test]
fn scanning_twice_gives_equal_sequences() {
    let src = "fun add(a, b) { return a + b; } // twice\n\"s\"";
    let (first, _, _) = scan(src);
    let (second, _, _) = scan(src);
    assert_eq!(first.len(), second.len());
    for (a, b) in first.iter().zip(second.iter()) {
        assert_eq!(a.kind, b.kind);
        assert_eq!(a.lexeme, b.lexeme);
        assert_eq!(a.line, b.line);
    }
}

#[test]
fn all_sixteen_keywords() {
    let src = "and class else false fun for if nil or print return super this true var while";
    let (tokens, diags, _) = scan(src);
    assert_eq!(
        kinds(&tokens),
        vec![
            TokenKind::And,
            TokenKind::Class,
            TokenKind::Else,
            TokenKind::False,
            TokenKind::Fun,
            TokenKind::For,
            TokenKind::If,
            TokenKind::Nil,
            TokenKind::Or,
            TokenKind::Print,
            TokenKind::Return,
            TokenKind::Super,
            TokenKind::This,
            TokenKind::True,
            TokenKind::Var,
            TokenKind::While,
            TokenKind::Eof
        ]
    );
    assert!(diags.is_empty());
}

#[test]
fn keyword_lookalikes_are_identifiers() {
    let (tokens, _, _) = scan("classy orchid iff");
    assert_eq!(
        kinds(&tokens),
        vec![
            TokenKind::Identifier,
            TokenKind::Identifier,
            TokenKind::Identifier,
            TokenKind::Eof
        ]
    );
}

#[test]
fn keyword_table_is_case_sensitive() {
    assert_eq!(match_keywords("and"), Some(TokenKind::And));
    assert_eq!(match_keywords("while"), Some(TokenKind::While));
    assert_eq!(match_keywords("And"), None);
    assert_eq!(match_keywords("WHILE"), None);
    assert_eq!(match_keywords(""), None);
    assert_eq!(match_keywords("android"), None);
}

#[test]
fn whitespace_is_discarded_and_lone_cr_is_not_a_line_end() {
    let (tokens, diags, line) = scan(" \r\t+\r+");
    assert_eq!(kinds(&tokens), vec![TokenKind::Plus, TokenKind::Plus, TokenKind::Eof]);
    assert_eq!(tokens[0].line, 1);
    assert_eq!(tokens[1].line, 1);
    assert_eq!(line, 1);
    assert!(diags.is_empty());
}

#[test]
fn slash_alone_and_comment() {
    let (tokens, _, _) = scan("/ /");
    assert_eq!(kinds(&tokens), vec![TokenKind::Slash, TokenKind::Slash, TokenKind::Eof]);
    let (tokens, _, _) = scan("//");
    assert_eq!(kinds(&tokens), vec![TokenKind::Eof]);
    let (tokens, _, line) = scan("//x");
    assert_eq!(kinds(&tokens), vec![TokenKind::Eof]);
    assert_eq!(line, 1);
}

#[test]
fn remaining_punctuation() {
    let (tokens, diags, _) = scan("{},.-;*");
    assert_eq!(
        kinds(&tokens),
        vec![
            TokenKind::LeftBrace,
            TokenKind::RightBrace,
            TokenKind::Comma,
            TokenKind::Dot,
            TokenKind::Minus,
            TokenKind::Semicolon,
            TokenKind::Star,
            TokenKind::Eof
        ]
    );
    assert!(diags.is_empty());
}

#[test]
fn single_character_operators() {
    let (tokens, _, _) = scan("! = < >");
    assert_eq!(
        kinds(&tokens),
        vec![
            TokenKind::Bang,
            TokenKind::Equal,
            TokenKind::Less,
            TokenKind::Greater,
            TokenKind::Eof
        ]
    );
}

#[test]
fn rendering_is_stable_and_names_the_kind() {
    let (tokens, _, _) = scan("(");
    assert_eq!(tokens[0].render(), "LeftParen (");
    assert_eq!(tokens[0].render(), tokens[0].render());
    assert_eq!(tokens[1].render(), "Eof ");
}

#[test]
fn diagnostic_messages() {
    let (_, diags, _) = scan("@\"x");
    assert_eq!(diags.len(), 2);
    assert_eq!(diags[0].message(), "Unexpected character");
    assert_eq!(diags[1].message(), "Unterminated string");
}

#[test]
fn identifiers_are_ascii_only() {
    let (tokens, diags, _) = scan("h\u{e9}llo");
    assert_eq!(
        kinds(&tokens),
        vec![TokenKind::Identifier, TokenKind::Identifier, TokenKind::Eof]
    );
    assert_eq!(tokens[0].lexeme, "h");
    assert_eq!(tokens[1].lexeme, "llo");
    assert_eq!(diags.len(), 1);
    assert_eq!(diags[0].kind, DiagnosticKind::UnexpectedCharacter);
}

#[test]
fn empty_string_literal() {
    let (tokens, diags, _) = scan("\"\"");
    assert_eq!(kinds(&tokens), vec![TokenKind::StringLit, TokenKind::Eof]);
    assert_eq!(tokens[0].string_literal(), Some(String::from("")));
    assert!(diags.is_empty());
}

#[test]
fn unterminated_multiline_string_reports_final_line() {
    let (tokens, diags, line) = scan("\"a\nb");
    assert_eq!(kinds(&tokens), vec![TokenKind::Eof]);
    assert_eq!(diags.len(), 1);
    assert_eq!(diags[0].kind, DiagnosticKind::UnterminatedString);
    assert_eq!(diags[0].line, 2);
    assert_eq!(line, 2);
}

#[test]
fn dot_before_digits_is_not_a_fraction() {
    let (tokens, _, _) = scan(".5");
    assert_eq!(kinds(&tokens), vec![TokenKind::Dot, TokenKind::Number, TokenKind::Eof]);
    assert_eq!(tokens[1].lexeme, "5");
}

#[test]
fn scanning_continues_after_errors() {
    let (tokens, diags, _) = scan("@+@-");
    assert_eq!(
        kinds(&tokens),
        vec![TokenKind::Plus, TokenKind::Minus, TokenKind::Eof]
    );
    assert_eq!(diags.len(), 2);
    assert!(diags.iter().all(|d| d.kind == DiagnosticKind::UnexpectedCharacter));
}
