//! Global properties of a scan, proved of the model that `Scanner` is proved
//! to implement: the single end-of-source token, the line count, exact
//! lexeme slices, maximal munch, the round trip, and determinism.

use vstd::prelude::*;

use crate::model::{
    close_quote, digits_end, eof_token, final_line, is_alnum, is_alpha, is_digit, lemma_alnum_end,
    lemma_close_quote, lemma_comment_end, lemma_digits_end, lemma_newlines_none,
    lemma_newlines_split, lemma_step_next, newlines, scan_rest, scan_result, scan_step,
    scanned_diags, scanned_tokens,
};
use crate::token::{SpecToken, TokenKind};

verus! {

/// One token cannot be extended at its right edge: a lone `!`, `=`, `<` or
/// `>` is not followed by `=`; a lone `/` is not followed by `/`; a word is
/// not followed by a letter or digit; a number is not followed by a digit,
/// nor by a dot that a digit follows unless the number already carries its
/// dot.
pub open spec fn maximal(s: Seq<char>, t: SpecToken) -> bool {
    &&& ((t.lexeme.len() == 1 && (t.lexeme[0] == '!' || t.lexeme[0] == '=' || t.lexeme[0] == '<'
        || t.lexeme[0] == '>')) ==> (t.end == s.len() || s[t.end] != '='))
    &&& ((t.lexeme.len() == 1 && t.lexeme[0] == '/') ==> (t.end == s.len() || s[t.end] != '/'))
    &&& ((t.lexeme.len() >= 1 && is_alpha(t.lexeme[0])) ==> (t.end == s.len() || !is_alnum(
        s[t.end],
    )))
    &&& ((t.lexeme.len() >= 1 && is_digit(t.lexeme[0])) ==> {
        &&& (t.end == s.len() || !is_digit(s[t.end]))
        &&& ((t.end + 1 < s.len() && s[t.end] == '.' && is_digit(s[t.end + 1]))
            ==> t.lexeme.contains('.'))
    })
}

/// What holds of every token emitted at or after `pos`: it is not the
/// end-of-source token, it covers a non-empty range of the source at or
/// after `pos`, its lexeme is exactly the slice it covers, and it cannot be
/// extended.
pub open spec fn good_token(s: Seq<char>, pos: int, t: SpecToken) -> bool {
    &&& t.kind != TokenKind::Eof
    &&& pos <= t.start < t.end <= s.len()
    &&& t.lexeme == s.subrange(t.start, t.end)
    &&& maximal(s, t)
}

/// The token one step emits covers exactly the characters the step consumes,
/// begins on the step's starting line, and is a `good_token`.
pub proof fn lemma_step_token(s: Seq<char>, pos: int, line: int)
    requires
        0 <= pos < s.len(),
    ensures
        scan_step(s, pos, line).token is Some ==> {
            let t = scan_step(s, pos, line).token.unwrap();
            &&& t.start == pos
            &&& t.end == scan_step(s, pos, line).next
            &&& t.line == line
            &&& good_token(s, pos, t)
        },
{
    let st = scan_step(s, pos, line);
    let c = s[pos];
    lemma_step_next(s, pos, line);
    if c == '"' {
        lemma_close_quote(s, pos + 1);
    } else if is_digit(c) {
        lemma_digits_end(s, pos + 1);
        let whole = digits_end(s, pos + 1);
        if whole + 1 < s.len() && s[whole] == '.' && is_digit(s[whole + 1]) {
            lemma_digits_end(s, whole + 1);
            let t = st.token.unwrap();
            assert(t.lexeme[whole - pos] == '.');
            assert(t.lexeme.contains('.'));
        }
    } else if is_alpha(c) {
        lemma_alnum_end(s, pos + 1);
    }
}

/// One step moves the line counter by exactly the newlines it consumes.
pub proof fn lemma_step_line(s: Seq<char>, pos: int, line: int)
    requires
        0 <= pos < s.len(),
    ensures
        scan_step(s, pos, line).line == line + newlines(s, pos, scan_step(s, pos, line).next),
{
    let st = scan_step(s, pos, line);
    let c = s[pos];
    lemma_step_next(s, pos, line);
    lemma_newlines_one(s, pos);
    if c == '/' && pos + 1 < s.len() && s[pos + 1] == '/' {
        lemma_comment_end(s, pos + 2);
        assert forall|k: int| pos <= k < st.next implies s[k] != '\n' by {}
        lemma_newlines_none(s, pos, st.next);
    } else if c == '"' {
        lemma_close_quote(s, pos + 1);
        let close = close_quote(s, pos + 1);
        if close >= s.len() {
            lemma_newlines_split(s, pos, pos + 1, s.len() as int);
        } else {
            lemma_newlines_split(s, pos, pos + 1, close);
            lemma_newlines_split(s, pos, close, close + 1);
            lemma_newlines_one(s, close);
        }
    } else if is_digit(c) {
        lemma_digits_end(s, pos + 1);
        let whole = digits_end(s, pos + 1);
        if whole + 1 < s.len() && s[whole] == '.' && is_digit(s[whole + 1]) {
            lemma_digits_end(s, whole + 1);
        }
        assert forall|k: int| pos <= k < st.next implies s[k] != '\n' by {}
        lemma_newlines_none(s, pos, st.next);
    } else if is_alpha(c) {
        lemma_alnum_end(s, pos + 1);
        assert forall|k: int| pos <= k < st.next implies s[k] != '\n' by {}
        lemma_newlines_none(s, pos, st.next);
    } else {
        if st.next == pos + 2 {
            lemma_newlines_split(s, pos, pos + 1, pos + 2);
            lemma_newlines_one(s, pos + 1);
        }
    }
}

/// The newline count of a single-character range.
proof fn lemma_newlines_one(s: Seq<char>, i: int)
    ensures
        newlines(s, i, i + 1) == (if s[i] == '\n' {
            1int
        } else {
            0int
        }),
{
    assert(newlines(s, i, i) == 0);
}

/// Every token a scan emits before the end-of-source token is a
/// `good_token`, and the tokens stand in strict source order.
pub proof fn lemma_rest_tokens(s: Seq<char>, pos: int, line: int)
    requires
        0 <= pos,
    ensures
        forall|i: int| #![auto]
            0 <= i < scan_rest(s, pos, line).tokens.len() ==> good_token(
                s,
                pos,
                scan_rest(s, pos, line).tokens[i],
            ),
        forall|i: int, j: int| #![auto]
            0 <= i < j < scan_rest(s, pos, line).tokens.len() ==> scan_rest(
                s,
                pos,
                line,
            ).tokens[i].end <= scan_rest(s, pos, line).tokens[j].start,
    decreases s.len() - pos,
{
    if pos < s.len() {
        let st = scan_step(s, pos, line);
        lemma_step_next(s, pos, line);
        lemma_step_token(s, pos, line);
        lemma_rest_tokens(s, st.next, st.line);
        let toks = scan_rest(s, pos, line).tokens;
        let rest = scan_rest(s, st.next, st.line).tokens;
        let head = crate::model::step_tokens(st);
        assert forall|i: int| 0 <= i < toks.len() implies good_token(s, pos, toks[i]) by {
            if i < head.len() {
                assert(toks[i] == st.token.unwrap());
            } else {
                assert(toks[i] == rest[i - head.len()]);
                assert(good_token(s, st.next, rest[i - head.len()]));
            }
        }
        assert forall|i: int, j: int| 0 <= i < j < toks.len() implies toks[i].end
            <= toks[j].start by {
            if i < head.len() {
                assert(toks[i] == st.token.unwrap());
                assert(toks[j] == rest[j - head.len()]);
                assert(good_token(s, st.next, rest[j - head.len()]));
            } else {
                assert(toks[i] == rest[i - head.len()]);
                assert(toks[j] == rest[j - head.len()]);
            }
        }
    }
}

/// The returned sequence ends with exactly one end-of-source token: the last
/// token is `Eof` and no other token is.
pub proof fn lemma_single_eof(s: Seq<char>)
    ensures
        scanned_tokens(s).len() >= 1,
        scanned_tokens(s).last().kind == TokenKind::Eof,
        forall|i: int| #![auto]
            0 <= i < scanned_tokens(s).len() - 1 ==> scanned_tokens(s)[i].kind != TokenKind::Eof,
{
    lemma_rest_tokens(s, 0, 1);
}

/// The final line is one more than the number of newlines in the source.
pub proof fn lemma_rest_line(s: Seq<char>, pos: int, line: int)
    requires
        0 <= pos <= s.len(),
    ensures
        scan_rest(s, pos, line).line == line + newlines(s, pos, s.len() as int),
    decreases s.len() - pos,
{
    if pos < s.len() {
        let st = scan_step(s, pos, line);
        lemma_step_next(s, pos, line);
        lemma_step_line(s, pos, line);
        lemma_rest_line(s, st.next, st.line);
        lemma_newlines_split(s, pos, st.next, s.len() as int);
    }
}

/// The scanner's final line count exceeds the source's newline count by
/// exactly one.
pub proof fn lemma_final_line(s: Seq<char>)
    ensures
        final_line(s) == 1 + newlines(s, 0, s.len() as int),
{
    lemma_rest_line(s, 0, 1);
}

/// Every returned token's lexeme is the exact source slice it covers; every
/// token but the last covers a non-empty range, and the last covers the
/// empty range at the end.
pub proof fn lemma_lexemes_exact(s: Seq<char>)
    ensures
        forall|i: int|
            0 <= i < scanned_tokens(s).len() ==> {
                let t = #[trigger] scanned_tokens(s)[i];
                &&& 0 <= t.start <= t.end <= s.len()
                &&& t.lexeme == s.subrange(t.start, t.end)
            },
        forall|i: int| #![auto]
            0 <= i < scanned_tokens(s).len() - 1 ==> scanned_tokens(s)[i].start < scanned_tokens(
                s,
            )[i].end,
{
    lemma_rest_tokens(s, 0, 1);
    assert(Seq::<char>::empty() =~= s.subrange(s.len() as int, s.len() as int));
}

/// Maximal munch: no returned token can be extended by what follows it, with
/// the number/dot carve-out stated in `maximal`.
pub proof fn lemma_maximal_munch(s: Seq<char>)
    ensures
        forall|i: int| #![auto]
            0 <= i < scanned_tokens(s).len() ==> maximal(s, scanned_tokens(s)[i]),
{
    lemma_rest_tokens(s, 0, 1);
}

/// The source as a token sequence tells it from position `from` on: the
/// skipped gap before each token, its lexeme, and the tail of the source
/// after the last token.
pub open spec fn interleave(s: Seq<char>, toks: Seq<SpecToken>, from: int) -> Seq<char>
    decreases toks.len(),
{
    if toks.len() == 0 {
        s.subrange(from, s.len() as int)
    } else {
        s.subrange(from, toks[0].start) + toks[0].lexeme + interleave(
            s,
            toks.drop_first(),
            toks[0].end,
        )
    }
}

/// Widening the gap before ordered tokens prepends exactly the widened
/// slice.
proof fn lemma_interleave_shift(s: Seq<char>, toks: Seq<SpecToken>, a: int, b: int)
    requires
        0 <= a <= b <= s.len(),
        toks.len() > 0 ==> b <= toks[0].start <= s.len(),
    ensures
        interleave(s, toks, a) == s.subrange(a, b) + interleave(s, toks, b),
{
    if toks.len() == 0 {
        assert(s.subrange(a, s.len() as int) =~= s.subrange(a, b) + s.subrange(
            b,
            s.len() as int,
        ));
    } else {
        assert(s.subrange(a, toks[0].start) =~= s.subrange(a, b) + s.subrange(b, toks[0].start));
        assert(interleave(s, toks, a) =~= s.subrange(a, b) + interleave(s, toks, b));
    }
}

/// The scan's tokens, interleaved with what it skipped, spell the remaining
/// source exactly.
proof fn lemma_rest_round_trip(s: Seq<char>, pos: int, line: int)
    requires
        0 <= pos <= s.len(),
    ensures
        interleave(s, scan_rest(s, pos, line).tokens, pos) == s.subrange(pos, s.len() as int),
    decreases s.len() - pos,
{
    if pos < s.len() {
        let st = scan_step(s, pos, line);
        lemma_step_next(s, pos, line);
        lemma_step_token(s, pos, line);
        lemma_rest_tokens(s, st.next, st.line);
        lemma_rest_round_trip(s, st.next, st.line);
        let toks = scan_rest(s, pos, line).tokens;
        let rest = scan_rest(s, st.next, st.line).tokens;
        if st.token is Some {
            let t = st.token.unwrap();
            assert(toks.len() >= 1 && toks[0] == t);
            assert(toks.drop_first() =~= rest);
            assert(s.subrange(pos, t.start) =~= Seq::<char>::empty());
            assert(s.subrange(pos, t.start) + t.lexeme + interleave(s, rest, st.next)
                =~= s.subrange(pos, s.len() as int));
        } else {
            assert(toks =~= rest);
            if rest.len() > 0 {
                assert(good_token(s, st.next, rest[0]));
            }
            lemma_interleave_shift(s, rest, pos, st.next);
            assert(s.subrange(pos, st.next) + s.subrange(st.next, s.len() as int) =~= s.subrange(
                pos,
                s.len() as int,
            ));
        }
    }
}

/// Appending the end-of-source token changes nothing about the interleaved
/// reading: its gap and lexeme are both empty.
proof fn lemma_interleave_push_eof(s: Seq<char>, toks: Seq<SpecToken>, from: int, line: int)
    requires
        0 <= from <= s.len(),
        forall|i: int| 0 <= i < toks.len() ==> 0 <= (#[trigger] toks[i].end) <= s.len(),
    ensures
        interleave(s, toks.push(eof_token(s, line)), from) == interleave(s, toks, from),
    decreases toks.len(),
{
    let e = eof_token(s, line);
    if toks.len() == 0 {
        let none = Seq::<SpecToken>::empty();
        assert(interleave(s, none, s.len() as int) == s.subrange(s.len() as int, s.len() as int));
        assert(toks.push(e).drop_first() =~= none);
        assert(interleave(s, toks.push(e), from) == s.subrange(from, e.start) + e.lexeme
            + interleave(s, toks.push(e).drop_first(), e.end));
        assert(interleave(s, toks.push(e), from) =~= s.subrange(from, s.len() as int));
    } else {
        assert(toks.push(e)[0] == toks[0]);
        assert(toks.push(e).drop_first() =~= toks.drop_first().push(e));
        assert(0 <= toks[0].end <= s.len());
        assert forall|i: int|
            0 <= i < toks.drop_first().len() implies 0 <= (#[trigger] toks.drop_first()[i].end)
            <= s.len() by {
            assert(toks.drop_first()[i] == toks[i + 1]);
        }
        lemma_interleave_push_eof(s, toks.drop_first(), toks[0].end, line);
        assert(interleave(s, toks.push(e), from) == s.subrange(from, toks[0].start)
            + toks[0].lexeme + interleave(s, toks.drop_first().push(e), toks[0].end));
        assert(interleave(s, toks, from) == s.subrange(from, toks[0].start) + toks[0].lexeme
            + interleave(s, toks.drop_first(), toks[0].end));
    }
}

/// Round trip: the lexemes of the returned tokens, interleaved with the
/// exact whitespace and comment spans the scanner skipped, spell the source
/// back character for character.
pub proof fn lemma_round_trip(s: Seq<char>)
    ensures
        interleave(s, scanned_tokens(s), 0) == s,
{
    lemma_rest_tokens(s, 0, 1);
    lemma_rest_round_trip(s, 0, 1);
    let toks = scan_result(s).tokens;
    assert forall|i: int| 0 <= i < toks.len() implies 0 <= (#[trigger] toks[i].end)
        <= s.len() by {
        assert(good_token(s, 0, toks[i]));
    }
    lemma_interleave_push_eof(s, toks, 0, final_line(s));
    assert(s.subrange(0, s.len() as int) =~= s);
}

/// From a line counter of at least 1, every emitted token and diagnostic
/// carries a line of at least the counter's, and the counter never falls.
pub proof fn lemma_rest_lines_positive(s: Seq<char>, pos: int, line: int)
    requires
        0 <= pos,
        1 <= line,
    ensures
        forall|i: int| #![auto]
            0 <= i < scan_rest(s, pos, line).tokens.len() ==> scan_rest(
                s,
                pos,
                line,
            ).tokens[i].line >= 1,
        forall|i: int| #![auto]
            0 <= i < scan_rest(s, pos, line).diags.len() ==> scan_rest(
                s,
                pos,
                line,
            ).diags[i].line >= 1,
        scan_rest(s, pos, line).line >= line,
    decreases s.len() - pos,
{
    if pos < s.len() {
        let st = scan_step(s, pos, line);
        lemma_step_next(s, pos, line);
        lemma_step_token(s, pos, line);
        lemma_step_line(s, pos, line);
        crate::model::lemma_newlines_nonneg(s, pos, st.next);
        crate::model::lemma_newlines_nonneg(s, pos + 1, s.len() as int);
        lemma_rest_lines_positive(s, st.next, st.line);
    }
}

/// Lines are 1-based: every returned token, the end-of-source token
/// included, and every reported diagnostic carries a line of at least 1.
pub proof fn lemma_lines_positive(s: Seq<char>)
    ensures
        forall|i: int| #![auto]
            0 <= i < scanned_tokens(s).len() ==> scanned_tokens(s)[i].line >= 1,
        forall|i: int| #![auto]
            0 <= i < scanned_diags(s).len() ==> scanned_diags(s)[i].line >= 1,
        final_line(s) >= 1,
{
    lemma_rest_lines_positive(s, 0, 1);
}

/// Scanning depends on the source alone: equal sources scan to equal token
/// sequences, equal diagnostics and equal final lines.
pub proof fn lemma_scan_deterministic(s1: Seq<char>, s2: Seq<char>)
    requires
        s1 == s2,
    ensures
        scanned_tokens(s1) == scanned_tokens(s2),
        scanned_diags(s1) == scanned_diags(s2),
        final_line(s1) == final_line(s2),
{
}

} // verus!
