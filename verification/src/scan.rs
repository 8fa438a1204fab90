//! The mathematical model of the scanner.
//!
//! Everything the executable tokenizer promises is stated against the spec
//! functions in this module: where a token starts and ends, what category it
//! gets, how rows and columns advance, and what the whole token sequence of a
//! buffer is.  The module also proves the two global laws of the scanner:
//! the coverage invariant (tokens and skipped whitespace tile the buffer
//! exactly) and idempotence (the token sequence is a function of the buffer
//! alone).

use vstd::prelude::*;

use crate::pattern::{
    is_alphanumeric, is_delimiter, is_digit, is_identifier_continue, is_identifier_start,
    is_newline, is_numeric_separator, is_op1, is_op2, is_op3, is_operator_lead, is_punctuation,
    is_quote, is_quote_prefix, is_separator, is_whitespace, BACKSLASH, DOT, DOUBLE_QUOTE,
};
use crate::token::{TokenModel, TokenType};

verus! {

/// The byte range, category and completeness of one token, before its text
/// and position are attached.
pub struct SpecToken {
    /// Index of the token's first byte.
    pub start: int,
    /// Index one past the token's last byte.
    pub end: int,
    /// The category tag.
    pub ty: TokenType,
    /// False only for a literal cut short by the end of input.
    pub complete: bool,
}

/// Number of newline bytes at indices `[from, to)` of `s`.
pub open spec fn newlines_between(s: Seq<u8>, from: int, to: int) -> int
    decreases to - from,
    when from <= to
{
    if to <= from {
        0
    } else {
        newlines_between(s, from, to - 1) + if is_newline(s[to - 1]) {
            1int
        } else {
            0int
        }
    }
}

/// The column baseline after scanning `[from, to)`: the index just past the
/// most recent newline in that range, or the incoming baseline `ls0` if the
/// range holds none.
pub open spec fn line_start_between(s: Seq<u8>, ls0: int, from: int, to: int) -> int
    decreases to - from,
    when from <= to
{
    if to <= from {
        ls0
    } else if is_newline(s[to - 1]) {
        to
    } else {
        line_start_between(s, ls0, from, to - 1)
    }
}

/// The index of the first non-whitespace byte at or after `i`, or the length
/// of `s` if only whitespace remains.
pub open spec fn skip_whitespace(s: Seq<u8>, i: int) -> int
    decreases s.len() - i,
    when 0 <= i <= s.len()
{
    if i >= s.len() {
        i
    } else if is_whitespace(s[i]) {
        skip_whitespace(s, i + 1)
    } else {
        i
    }
}

/// The end of the identifier-continuation run starting at `i`.
pub open spec fn scan_identifier(s: Seq<u8>, i: int) -> int
    decreases s.len() - i,
    when 0 <= i <= s.len()
{
    if i >= s.len() {
        i
    } else if is_identifier_continue(s[i]) {
        scan_identifier(s, i + 1)
    } else {
        i
    }
}

/// The end and category of the numeric literal whose digits continue at `i`;
/// `is_float` records whether a decimal point has been consumed already.  A
/// second decimal point consumes that byte and surfaces as `Unknown`.
pub open spec fn scan_number(s: Seq<u8>, i: int, is_float: bool) -> (int, TokenType)
    decreases s.len() - i,
    when 0 <= i <= s.len()
{
    if i >= s.len() {
        (i, if is_float {
            TokenType::FloatLiteral
        } else {
            TokenType::IntegerLiteral
        })
    } else if is_digit(s[i]) || is_numeric_separator(s[i]) {
        scan_number(s, i + 1, is_float)
    } else if s[i] == DOT {
        if is_float {
            (i + 1, TokenType::Unknown)
        } else {
            scan_number(s, i + 1, true)
        }
    } else {
        (i, if is_float {
            TokenType::FloatLiteral
        } else {
            TokenType::IntegerLiteral
        })
    }
}

/// The end and completeness of the quoted literal whose body continues at
/// `i`, with terminator `q`.  A backslash immediately before the terminator
/// escapes it; reaching the end of input yields an incomplete literal.
pub open spec fn scan_literal(s: Seq<u8>, i: int, q: u8) -> (int, bool)
    decreases s.len() - i,
    when 0 <= i <= s.len()
{
    if i >= s.len() {
        (i, false)
    } else if s[i] == q {
        (i + 1, true)
    } else if s[i] == BACKSLASH && i + 1 < s.len() && s[i + 1] == q {
        scan_literal(s, i + 2, q)
    } else {
        scan_literal(s, i + 1, q)
    }
}

/// The literal category selected by a quote byte.
pub open spec fn literal_type(q: u8) -> TokenType {
    if q == DOUBLE_QUOTE {
        TokenType::StringLiteral
    } else {
        TokenType::CharLiteral
    }
}

/// The token beginning at the non-whitespace position `p`: the current byte
/// is classified, and an operator-lead byte is matched greedily against the
/// 3-byte, then 2-byte, then 1-byte operator tables.
pub open spec fn token_at(s: Seq<u8>, p: int) -> SpecToken
    recommends
        0 <= p < s.len(),
        !is_whitespace(s[p]),
{
    let b = s[p];
    if is_operator_lead(b) {
        if p + 3 <= s.len() && is_op3(s[p], s[p + 1], s[p + 2]) {
            SpecToken { start: p, end: p + 3, ty: TokenType::Operator, complete: true }
        } else if p + 2 <= s.len() && is_op2(s[p], s[p + 1]) {
            SpecToken { start: p, end: p + 2, ty: TokenType::Operator, complete: true }
        } else if is_op1(b) {
            SpecToken { start: p, end: p + 1, ty: TokenType::Operator, complete: true }
        } else if is_separator(b) {
            SpecToken { start: p, end: p + 1, ty: TokenType::Delimiter, complete: true }
        } else {
            SpecToken { start: p, end: p + 1, ty: TokenType::Unknown, complete: true }
        }
    } else if is_delimiter(b) || is_separator(b) {
        SpecToken { start: p, end: p + 1, ty: TokenType::Delimiter, complete: true }
    } else if is_quote(b) {
        let r = scan_literal(s, p + 1, b);
        SpecToken { start: p, end: r.0, ty: literal_type(b), complete: r.1 }
    } else if is_identifier_start(b) {
        let j = scan_identifier(s, p);
        if j < s.len() && is_quote(s[j]) && is_quote_prefix(s[j - 1]) {
            let r = scan_literal(s, j + 1, s[j]);
            SpecToken { start: p, end: r.0, ty: literal_type(s[j]), complete: r.1 }
        } else {
            SpecToken { start: p, end: j, ty: TokenType::Identifier, complete: true }
        }
    } else if is_digit(b) {
        let r = scan_number(s, p + 1, false);
        SpecToken { start: p, end: r.0, ty: r.1, complete: true }
    } else {
        SpecToken { start: p, end: p + 1, ty: TokenType::Unknown, complete: true }
    }
}

/// The token sequence of `s` from position `i` on: skip whitespace, take one
/// token, continue after it.
pub open spec fn spec_tokens(s: Seq<u8>, i: int) -> Seq<SpecToken>
    decreases s.len() - i,
    when 0 <= i <= s.len()
{
    let p = skip_whitespace(s, i);
    if i <= p && p < s.len() {
        let t = token_at(s, p);
        if p < t.end && t.end <= s.len() {
            seq![t] + spec_tokens(s, t.end)
        } else {
            seq![t]
        }
    } else {
        seq![]
    }
}

/// The full model of every token of `s` from position `i` on, with text,
/// row and column attached; `row0` and `ls0` are the row and column baseline
/// in force at position `i`.
pub open spec fn token_models(s: Seq<u8>, i: int, row0: int, ls0: int) -> Seq<TokenModel> {
    spec_tokens(s, i).map_values(
        |t: SpecToken|
            TokenModel {
                start: t.start,
                text: s.subrange(t.start, t.end),
                row: row0 + newlines_between(s, i, t.start),
                column: t.start - line_start_between(s, ls0, i, t.start),
                ty: t.ty,
                complete: t.complete,
            },
    )
}

/// The token-count estimate: the number of string-literal spans plus the
/// number of alphanumeric or punctuation bytes outside string literals, from
/// position `i` on; `in_string` and `prev` carry the scan state.
pub open spec fn estimate_from(s: Seq<u8>, i: int, in_string: bool, prev: u8) -> int
    decreases s.len() - i,
    when 0 <= i <= s.len()
{
    if i >= s.len() {
        0
    } else {
        let c = s[i];
        if is_quote(c) && in_string && prev != BACKSLASH {
            estimate_from(s, i + 1, false, c)
        } else if is_quote(c) && !in_string {
            1 + estimate_from(s, i + 1, true, c)
        } else if !in_string && (is_alphanumeric(c) || is_punctuation(c)) {
            1 + estimate_from(s, i + 1, in_string, c)
        } else {
            estimate_from(s, i + 1, in_string, c)
        }
    }
}

/// The token-count estimate for the whole buffer.
pub open spec fn spec_token_estimate(s: Seq<u8>) -> int {
    estimate_from(s, 0, false, 0)
}

/// The newline count of a range is between zero and the range's width.
pub proof fn lemma_newlines_between_bounds(s: Seq<u8>, from: int, to: int)
    requires
        from <= to,
    ensures
        0 <= newlines_between(s, from, to) <= to - from,
    decreases to - from,
{
    if to > from {
        lemma_newlines_between_bounds(s, from, to - 1);
    }
}

/// Newline counts add over adjacent ranges.
pub proof fn lemma_newlines_between_split(s: Seq<u8>, a: int, b: int, c: int)
    requires
        a <= b <= c,
    ensures
        newlines_between(s, a, c) == newlines_between(s, a, b) + newlines_between(s, b, c),
    decreases c - b,
{
    if c > b {
        lemma_newlines_between_split(s, a, b, c - 1);
    }
}

/// The column baseline never moves backwards and never passes the scan
/// position.
pub proof fn lemma_line_start_between_bounds(s: Seq<u8>, ls0: int, from: int, to: int)
    requires
        ls0 <= from <= to,
    ensures
        ls0 <= line_start_between(s, ls0, from, to) <= to,
    decreases to - from,
{
    if to > from {
        lemma_line_start_between_bounds(s, ls0, from, to - 1);
    }
}

/// Column baselines compose over adjacent ranges.
pub proof fn lemma_line_start_between_split(s: Seq<u8>, ls0: int, a: int, b: int, c: int)
    requires
        ls0 <= a <= b <= c,
    ensures
        line_start_between(s, line_start_between(s, ls0, a, b), b, c) == line_start_between(
            s,
            ls0,
            a,
            c,
        ),
    decreases c - b,
{
    if c > b {
        lemma_line_start_between_split(s, ls0, a, b, c - 1);
    }
}

/// What `skip_whitespace` returns: a position between `i` and the end, with
/// only whitespace before it and a non-whitespace byte (or the end) at it.
pub proof fn lemma_skip_whitespace(s: Seq<u8>, i: int)
    requires
        0 <= i <= s.len(),
    ensures
        i <= skip_whitespace(s, i) <= s.len(),
        forall|j: int| i <= j < skip_whitespace(s, i) ==> is_whitespace(#[trigger] s[j]),
        skip_whitespace(s, i) < s.len() ==> !is_whitespace(s[skip_whitespace(s, i)]),
    decreases s.len() - i,
{
    if i < s.len() && is_whitespace(s[i]) {
        lemma_skip_whitespace(s, i + 1);
    }
}

/// The identifier scan stays inside the buffer and stops at the first byte
/// that cannot continue an identifier.
pub proof fn lemma_scan_identifier(s: Seq<u8>, i: int)
    requires
        0 <= i <= s.len(),
    ensures
        i <= scan_identifier(s, i) <= s.len(),
        forall|j: int| i <= j < scan_identifier(s, i) ==> is_identifier_continue(#[trigger] s[j]),
        scan_identifier(s, i) < s.len() ==> !is_identifier_continue(s[scan_identifier(s, i)]),
    decreases s.len() - i,
{
    if i < s.len() && is_identifier_continue(s[i]) {
        lemma_scan_identifier(s, i + 1);
    }
}

/// The numeric scan stays inside the buffer.
pub proof fn lemma_scan_number_bounds(s: Seq<u8>, i: int, is_float: bool)
    requires
        0 <= i <= s.len(),
    ensures
        i <= scan_number(s, i, is_float).0 <= s.len(),
    decreases s.len() - i,
{
    if i < s.len() {
        if is_digit(s[i]) || is_numeric_separator(s[i]) {
            lemma_scan_number_bounds(s, i + 1, is_float);
        } else if s[i] == DOT && !is_float {
            lemma_scan_number_bounds(s, i + 1, true);
        }
    }
}

/// The numeric scan consumes only digits, numeric separators and decimal
/// points.
pub proof fn lemma_scan_number_chars(s: Seq<u8>, i: int, is_float: bool)
    requires
        0 <= i <= s.len(),
    ensures
        forall|j: int|
            i <= j < scan_number(s, i, is_float).0 ==> is_digit(#[trigger] s[j])
                || is_numeric_separator(s[j]) || s[j] == DOT,
    decreases s.len() - i,
{
    lemma_scan_number_bounds(s, i, is_float);
    if i < s.len() {
        if is_digit(s[i]) || is_numeric_separator(s[i]) {
            lemma_scan_number_chars(s, i + 1, is_float);
        } else if s[i] == DOT && !is_float {
            lemma_scan_number_chars(s, i + 1, true);
        }
    }
}

/// A range without newlines leaves the newline count and the column
/// baseline untouched.
pub proof fn lemma_no_newlines(s: Seq<u8>, ls0: int, from: int, to: int)
    requires
        from <= to,
        forall|j: int| from <= j < to ==> !is_newline(#[trigger] s[j]),
    ensures
        newlines_between(s, from, to) == 0,
        line_start_between(s, ls0, from, to) == ls0,
    decreases to - from,
{
    if to > from {
        lemma_no_newlines(s, ls0, from, to - 1);
    }
}

/// The literal scan stays inside the buffer.
pub proof fn lemma_scan_literal_bounds(s: Seq<u8>, i: int, q: u8)
    requires
        0 <= i <= s.len(),
    ensures
        i <= scan_literal(s, i, q).0 <= s.len(),
    decreases s.len() - i,
{
    if i < s.len() && s[i] != q {
        if s[i] == BACKSLASH && i + 1 < s.len() && s[i + 1] == q {
            lemma_scan_literal_bounds(s, i + 2, q);
        } else {
            lemma_scan_literal_bounds(s, i + 1, q);
        }
    }
}

/// Forward progress: every token is at least one byte wide and ends inside
/// the buffer.
pub proof fn lemma_token_at_progress(s: Seq<u8>, p: int)
    requires
        0 <= p < s.len(),
        !is_whitespace(s[p]),
    ensures
        p < token_at(s, p).end <= s.len(),
        token_at(s, p).start == p,
{
    let b = s[p];
    if is_operator_lead(b) {
    } else if is_delimiter(b) || is_separator(b) {
    } else if is_quote(b) {
        lemma_scan_literal_bounds(s, p + 1, b);
    } else if is_identifier_start(b) {
        lemma_scan_identifier(s, p);
        let j = scan_identifier(s, p);
        if j < s.len() && is_quote(s[j]) && is_quote_prefix(s[j - 1]) {
            lemma_scan_literal_bounds(s, j + 1, s[j]);
        } else {
            assert(is_identifier_continue(s[p]));
            assert(j > p);
        }
    } else if is_digit(b) {
        lemma_scan_number_bounds(s, p + 1, false);
    }
}

/// The base position of the whitespace gap before token `k`: the scan start
/// for the first token, the previous token's end for every later one.
pub open spec fn gap_start(toks: Seq<SpecToken>, i: int, k: int) -> int {
    if k == 0 {
        i
    } else {
        toks[k - 1].end
    }
}

/// Coverage invariant: the byte ranges of the tokens of `s` from `i` on,
/// together with the whitespace gaps between them, tile `[i, s.len())`
/// exactly - in order, without gaps, overlaps or duplication, and every
/// skipped byte is whitespace.
pub proof fn lemma_coverage(s: Seq<u8>, i: int)
    requires
        0 <= i <= s.len(),
    ensures
        ({
            let toks = spec_tokens(s, i);
            &&& forall|k: int|
                0 <= k < toks.len() ==> gap_start(toks, i, k) <= #[trigger] toks[k].start
                    && toks[k].start < toks[k].end <= s.len()
            &&& forall|k: int| 0 <= k < toks.len() ==> i <= #[trigger] toks[k].start
            &&& forall|k: int, j: int|
                0 <= k < toks.len() && gap_start(toks, i, k) <= j < (#[trigger] toks[k]).start
                    ==> is_whitespace(#[trigger] s[j])
            &&& forall|j: int|
                gap_start(toks, i, toks.len() as int) <= j < s.len() ==> is_whitespace(
                    #[trigger] s[j],
                )
            &&& gap_start(toks, i, toks.len() as int) >= i
        }),
    decreases s.len() - i,
{
    let toks = spec_tokens(s, i);
    let p = skip_whitespace(s, i);
    lemma_skip_whitespace(s, i);
    if p < s.len() {
        let t = token_at(s, p);
        lemma_token_at_progress(s, p);
        let rest = spec_tokens(s, t.end);
        lemma_coverage(s, t.end);
        assert(toks == seq![t] + rest);
        assert(toks[0] == t);
        assert forall|k: int| 1 <= k < toks.len() implies toks[k] == rest[k - 1] by {
            assert(toks[k] == (seq![t] + rest)[k]);
        }
        assert forall|k: int| 0 <= k < toks.len() implies gap_start(toks, i, k)
            <= #[trigger] toks[k].start && toks[k].start < toks[k].end <= s.len() by {
            if k > 0 {
                assert(toks[k] == rest[k - 1]);
                assert(gap_start(toks, i, k) == gap_start(rest, t.end, k - 1));
            }
        }
        assert forall|k: int| 0 <= k < toks.len() implies i <= #[trigger] toks[k].start by {
            if k > 0 {
                assert(toks[k] == rest[k - 1]);
            }
        }
        assert forall|k: int, j: int|
            0 <= k < toks.len() && gap_start(toks, i, k) <= j < (#[trigger] toks[k]).start
            implies is_whitespace(#[trigger] s[j]) by {
            if k == 0 {
                assert(toks[0].start == p);
            } else {
                assert(toks[k] == rest[k - 1]);
                assert(gap_start(toks, i, k) == gap_start(rest, t.end, k - 1));
            }
        }
        assert(gap_start(toks, i, toks.len() as int) == gap_start(
            rest,
            t.end,
            rest.len() as int,
        ));
    }
}

/// The base position of the whitespace gap before the token of model `k`:
/// the scan start for the first token, the end of the previous token's byte
/// range for every later one.
pub open spec fn model_gap_start(ms: Seq<TokenModel>, i: int, k: int) -> int {
    if k == 0 {
        i
    } else {
        ms[k - 1].start + ms[k - 1].text.len()
    }
}

/// Coverage invariant, stated of the token models the scanner hands out:
/// every model's text is exactly the byte range it names, the ranges come in
/// order, and together with the whitespace gaps between them they reproduce
/// `[i, s.len())` with no gap, overlap or duplication.
pub proof fn lemma_coverage_models(s: Seq<u8>, i: int, row0: int, ls0: int)
    requires
        0 <= i <= s.len(),
    ensures
        ({
            let ms = token_models(s, i, row0, ls0);
            &&& forall|k: int|
                0 <= k < ms.len() ==> model_gap_start(ms, i, k) <= #[trigger] ms[k].start
                    && ms[k].start + ms[k].text.len() <= s.len() && ms[k].text.len() > 0
            &&& forall|k: int|
                0 <= k < ms.len() ==> #[trigger] ms[k].text == s.subrange(
                    ms[k].start,
                    ms[k].start + ms[k].text.len(),
                )
            &&& forall|k: int, j: int|
                0 <= k < ms.len() && model_gap_start(ms, i, k) <= j < (#[trigger] ms[k]).start
                    ==> is_whitespace(#[trigger] s[j])
            &&& forall|j: int|
                model_gap_start(ms, i, ms.len() as int) <= j < s.len() ==> is_whitespace(
                    #[trigger] s[j],
                )
            &&& model_gap_start(ms, i, ms.len() as int) >= i
        }),
{
    let toks = spec_tokens(s, i);
    let ms = token_models(s, i, row0, ls0);
    lemma_coverage(s, i);
    assert forall|k: int| 0 <= k < ms.len() implies #[trigger] ms[k].start == toks[k].start
        && ms[k].text.len() == toks[k].end - toks[k].start by {
        assert(ms[k].text == s.subrange(toks[k].start, toks[k].end));
    }
    assert forall|k: int| 0 <= k < ms.len() implies model_gap_start(ms, i, k) == gap_start(
        toks,
        i,
        k,
    ) by {
        if k > 0 {
            assert(ms[k - 1].start == toks[k - 1].start);
        }
    }
    assert(model_gap_start(ms, i, ms.len() as int) == gap_start(toks, i, toks.len() as int));
}

/// Idempotence: scanning a buffer is deterministic, so two scans of the same
/// buffer from the same starting row - a fresh scanner, or one rebound by
/// `reset` - yield the identical token sequence.
pub proof fn lemma_tokenize_idempotent(
    t1: Seq<TokenModel>,
    t2: Seq<TokenModel>,
    s: Seq<u8>,
    row0: int,
)
    requires
        t1 == token_models(s, 0, row0, 0),
        t2 == token_models(s, 0, row0, 0),
    ensures
        t1 == t2,
{
}

} // verus!

