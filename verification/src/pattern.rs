//! Byte classification tables.
//!
//! Every classification the scanner makes starts from these predicates: each
//! category is defined once as a spec function over a byte (or a short byte
//! sequence), and each has an executable twin proved equal to it.  The
//! operator tables are partitioned by length so that the scanner can apply
//! greedy longest-match dispatch (3-byte, then 2-byte, then 1-byte).

use vstd::prelude::*;

verus! {

/// `\n`
pub const NEWLINE: u8 = 10;

/// `\t`
pub const TAB: u8 = 9;

/// `\r`
pub const CARRIAGE_RETURN: u8 = 13;

/// Form feed.
pub const FORM_FEED: u8 = 12;

/// ` `
pub const SPACE: u8 = 32;

/// `"`
pub const DOUBLE_QUOTE: u8 = 34;

/// `'`
pub const SINGLE_QUOTE: u8 = 39;

/// `\`
pub const BACKSLASH: u8 = 92;

/// `.`
pub const DOT: u8 = 46;

/// `:`
pub const COLON: u8 = 58;

/// `_`
pub const UNDERSCORE: u8 = 95;

/// The line terminator; the only whitespace byte that advances the row.
pub open spec fn is_newline(b: u8) -> bool {
    b == NEWLINE
}

/// Space, tab, carriage return, form feed, or newline.
pub open spec fn is_whitespace(b: u8) -> bool {
    b == SPACE || b == TAB || b == CARRIAGE_RETURN || b == FORM_FEED || b == NEWLINE
}

/// Bracketing delimiters `{ } ( ) [ ]`; each is always a single-byte token.
pub open spec fn is_delimiter(b: u8) -> bool {
    b == 123 || b == 125 || b == 40 || b == 41 || b == 91 || b == 93
}

/// The separators `,` `;` `:`; each is a single-byte token.
pub open spec fn is_separator(b: u8) -> bool {
    b == 44 || b == 59 || b == COLON
}

/// A quote byte opening a string (`"`) or character (`'`) literal.
pub open spec fn is_quote(b: u8) -> bool {
    b == DOUBLE_QUOTE || b == SINGLE_QUOTE
}

/// A literal prefix `r` `b` `u` `f` (raw, binary, unicode, formatted),
/// meaningful only immediately before a quote byte.
pub open spec fn is_quote_prefix(b: u8) -> bool {
    b == 114 || b == 98 || b == 117 || b == 102
}

/// A byte that may start an identifier: a letter or an underscore.
pub open spec fn is_identifier_start(b: u8) -> bool {
    (97 <= b && b <= 122) || (65 <= b && b <= 90) || b == UNDERSCORE
}

/// A byte that may continue an identifier: a start byte or a digit.
pub open spec fn is_identifier_continue(b: u8) -> bool {
    is_identifier_start(b) || is_digit(b)
}

/// A decimal digit `0`..`9`.
pub open spec fn is_digit(b: u8) -> bool {
    48 <= b && b <= 57
}

/// The readability separator `_` permitted inside numeric literals.
pub open spec fn is_numeric_separator(b: u8) -> bool {
    b == UNDERSCORE
}

/// A letter or digit; used by the token-count estimate.
pub open spec fn is_alphanumeric(b: u8) -> bool {
    (97 <= b && b <= 122) || (65 <= b && b <= 90) || (48 <= b && b <= 57)
}

/// ASCII punctuation `!`..`/`, `:`..`@`, `[`..`` ` ``, `{`..`~`; used by the
/// token-count estimate.
pub open spec fn is_punctuation(b: u8) -> bool {
    (33 <= b && b <= 47) || (58 <= b && b <= 64) || (91 <= b && b <= 96) || (123 <= b && b <= 126)
}

/// The single-byte operators `? ! = < > & | + - * / % ^ @`.
pub open spec fn is_op1(b: u8) -> bool {
    b == 63 || b == 33 || b == 61 || b == 60 || b == 62 || b == 38 || b == 124 || b == 43
        || b == 45 || b == 42 || b == 47 || b == 37 || b == 94 || b == 64
}

/// The two-byte operators: `== => != <= << <- >= >> // /= ** *= .. += ++ -=`
/// `-- -> %= &= && |= || |: ^= @= ?= ?? ::`.
pub open spec fn is_op2(a: u8, b: u8) -> bool {
    ||| (a == 61 && (b == 61 || b == 62))  // == =>
    ||| (a == 33 && b == 61)  // !=
    ||| (a == 60 && (b == 61 || b == 60 || b == 45))  // <= << <-
    ||| (a == 62 && (b == 61 || b == 62))  // >= >>
    ||| (a == 47 && (b == 47 || b == 61))  // // /=
    ||| (a == 42 && (b == 42 || b == 61))  // ** *=
    ||| (a == DOT && b == DOT)  // ..
    ||| (a == 43 && (b == 61 || b == 43))  // += ++
    ||| (a == 45 && (b == 61 || b == 45 || b == 62))  // -= -- ->
    ||| (a == 37 && b == 61)  // %=
    ||| (a == 38 && (b == 61 || b == 38))  // &= &&
    ||| (a == 124 && (b == 61 || b == 124 || b == COLON))  // |= || |:
    ||| (a == 94 && b == 61)  // ^=
    ||| (a == 64 && b == 61)  // @=
    ||| (a == 63 && (b == 61 || b == 63))  // ?= ??
    ||| (a == COLON && b == COLON)  // ::
}

/// The three-byte operators: `=== !== ... ..= //= **= <<= >>=`.
pub open spec fn is_op3(a: u8, b: u8, c: u8) -> bool {
    ||| (a == 61 && b == 61 && c == 61)  // ===
    ||| (a == 33 && b == 61 && c == 61)  // !==
    ||| (a == DOT && b == DOT && (c == DOT || c == 61))  // ... ..=
    ||| (a == 47 && b == 47 && c == 61)  // //=
    ||| (a == 42 && b == 42 && c == 61)  // **=
    ||| (a == 60 && b == 60 && c == 61)  // <<=
    ||| (a == 62 && b == 62 && c == 61)  // >>=
}

/// A byte that can begin an operator of any length.  Besides the single-byte
/// operators this covers `.` (for `..`, `...`, `..=`) and `:` (for `::`).
pub open spec fn is_operator_lead(b: u8) -> bool {
    is_op1(b) || b == DOT || b == COLON
}

/// Executable twin of [`is_newline`].
pub fn byte_is_newline(b: u8) -> (r: bool)
    ensures
        r == is_newline(b),
{
    b == NEWLINE
}

/// Executable twin of [`is_whitespace`].
pub fn byte_is_whitespace(b: u8) -> (r: bool)
    ensures
        r == is_whitespace(b),
{
    b == SPACE || b == TAB || b == CARRIAGE_RETURN || b == FORM_FEED || b == NEWLINE
}

/// Executable twin of [`is_delimiter`].
pub fn byte_is_delimiter(b: u8) -> (r: bool)
    ensures
        r == is_delimiter(b),
{
    b == 123 || b == 125 || b == 40 || b == 41 || b == 91 || b == 93
}

/// Executable twin of [`is_separator`].
pub fn byte_is_separator(b: u8) -> (r: bool)
    ensures
        r == is_separator(b),
{
    b == 44 || b == 59 || b == COLON
}

/// Executable twin of [`is_quote`].
pub fn byte_is_quote(b: u8) -> (r: bool)
    ensures
        r == is_quote(b),
{
    b == DOUBLE_QUOTE || b == SINGLE_QUOTE
}

/// Executable twin of [`is_quote_prefix`].
pub fn byte_is_quote_prefix(b: u8) -> (r: bool)
    ensures
        r == is_quote_prefix(b),
{
    b == 114 || b == 98 || b == 117 || b == 102
}

/// Executable twin of [`is_identifier_start`].
pub fn byte_is_identifier_start(b: u8) -> (r: bool)
    ensures
        r == is_identifier_start(b),
{
    (97 <= b && b <= 122) || (65 <= b && b <= 90) || b == UNDERSCORE
}

/// Executable twin of [`is_identifier_continue`].
pub fn byte_is_identifier_continue(b: u8) -> (r: bool)
    ensures
        r == is_identifier_continue(b),
{
    byte_is_identifier_start(b) || byte_is_digit(b)
}

/// Executable twin of [`is_digit`].
pub fn byte_is_digit(b: u8) -> (r: bool)
    ensures
        r == is_digit(b),
{
    48 <= b && b <= 57
}

/// Executable twin of [`is_numeric_separator`].
pub fn byte_is_numeric_separator(b: u8) -> (r: bool)
    ensures
        r == is_numeric_separator(b),
{
    b == UNDERSCORE
}

/// Executable twin of [`is_alphanumeric`].
pub fn byte_is_alphanumeric(b: u8) -> (r: bool)
    ensures
        r == is_alphanumeric(b),
{
    (97 <= b && b <= 122) || (65 <= b && b <= 90) || (48 <= b && b <= 57)
}

/// Executable twin of [`is_punctuation`].
pub fn byte_is_punctuation(b: u8) -> (r: bool)
    ensures
        r == is_punctuation(b),
{
    (33 <= b && b <= 47) || (58 <= b && b <= 64) || (91 <= b && b <= 96) || (123 <= b && b <= 126)
}

/// Executable twin of [`is_op1`].
pub fn match_op1(b: u8) -> (r: bool)
    ensures
        r == is_op1(b),
{
    b == 63 || b == 33 || b == 61 || b == 60 || b == 62 || b == 38 || b == 124 || b == 43
        || b == 45 || b == 42 || b == 47 || b == 37 || b == 94 || b == 64
}

/// Executable twin of [`is_op2`].
pub fn match_op2(a: u8, b: u8) -> (r: bool)
    ensures
        r == is_op2(a, b),
{
    (a == 61 && (b == 61 || b == 62)) || (a == 33 && b == 61)
        || (a == 60 && (b == 61 || b == 60 || b == 45)) || (a == 62 && (b == 61 || b == 62))
        || (a == 47 && (b == 47 || b == 61)) || (a == 42 && (b == 42 || b == 61))
        || (a == DOT && b == DOT) || (a == 43 && (b == 61 || b == 43))
        || (a == 45 && (b == 61 || b == 45 || b == 62)) || (a == 37 && b == 61)
        || (a == 38 && (b == 61 || b == 38)) || (a == 124 && (b == 61 || b == 124 || b == COLON))
        || (a == 94 && b == 61) || (a == 64 && b == 61) || (a == 63 && (b == 61 || b == 63))
        || (a == COLON && b == COLON)
}

/// Executable twin of [`is_op3`].
pub fn match_op3(a: u8, b: u8, c: u8) -> (r: bool)
    ensures
        r == is_op3(a, b, c),
{
    (a == 61 && b == 61 && c == 61) || (a == 33 && b == 61 && c == 61)
        || (a == DOT && b == DOT && (c == DOT || c == 61)) || (a == 47 && b == 47 && c == 61)
        || (a == 42 && b == 42 && c == 61) || (a == 60 && b == 60 && c == 61)
        || (a == 62 && b == 62 && c == 61)
}

/// Executable twin of [`is_operator_lead`].
pub fn byte_is_operator_lead(b: u8) -> (r: bool)
    ensures
        r == is_operator_lead(b),
{
    match_op1(b) || b == DOT || b == COLON
}

} // verus!
