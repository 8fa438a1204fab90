//! The tokenizer engine.
//!
//! A [`Tokenizer`] borrows one immutable source buffer and walks it with a
//! window of two cursors: `window_head` marks the start of the lexeme being
//! scanned, `window_tail` the current scan position.  Rows are counted at
//! each newline and the column is the byte offset since the most recent
//! newline.  Every contract is stated against the spec functions of
//! [`crate::scan`].

use vstd::prelude::*;
use vstd::slice::{slice_index_get, slice_subrange};

use crate::pattern::{
    byte_is_alphanumeric, byte_is_delimiter, byte_is_digit, byte_is_identifier_continue,
    byte_is_identifier_start, byte_is_numeric_separator, byte_is_operator_lead,
    byte_is_punctuation, byte_is_quote, byte_is_quote_prefix, byte_is_separator,
    byte_is_whitespace, is_newline, match_op1, match_op2, match_op3, BACKSLASH, DOT, NEWLINE,
};
use crate::scan::{
    estimate_from, lemma_coverage, lemma_line_start_between_bounds, lemma_line_start_between_split,
    lemma_newlines_between_bounds, lemma_newlines_between_split, lemma_no_newlines,
    lemma_scan_identifier, lemma_scan_number_chars, lemma_skip_whitespace, lemma_token_at_progress,
    line_start_between, newlines_between, scan_identifier, scan_literal, scan_number,
    skip_whitespace, spec_token_estimate, spec_tokens, token_at, token_models, SpecToken,
};
use crate::token::TokenModel;
use crate::token::{Token, TokenType};

verus! {

/// The mathematical view of a tokenizer: the buffer it scans and its four
/// cursors.
pub struct TokenizerModel {
    /// The source bytes.
    pub buf: Seq<u8>,
    /// Start of the lexeme currently being scanned.
    pub head: int,
    /// Current scan position.
    pub tail: int,
    /// Current row.
    pub row: int,
    /// Index just past the most recent newline consumed; the column is the
    /// scan position minus this baseline.
    pub line_start: int,
}

/// The scanner state machine over one borrowed buffer.
pub struct Tokenizer<'a> {
    sub_tokens: &'a [u8],
    window_head: usize,
    window_tail: usize,
    row: isize,
    last_newline: usize,
}

impl<'a> View for Tokenizer<'a> {
    type V = TokenizerModel;

    closed spec fn view(&self) -> TokenizerModel {
        TokenizerModel {
            buf: self.sub_tokens@,
            head: self.window_head as int,
            tail: self.window_tail as int,
            row: self.row as int,
            line_start: self.last_newline as int,
        }
    }
}

impl<'a> Tokenizer<'a> {
    /// The starting row a caller passes when counting from the first line of
    /// a file whose diagnostics are one-based.
    pub const FIRST_ROW: isize = -1;

    /// Structural well-formedness: the window lies inside the buffer and the
    /// column baseline does not pass the scan position.
    pub open spec fn wf(self) -> bool {
        self@.head <= self@.tail <= self@.buf.len() && self@.line_start <= self@.tail
    }

    /// The scanner is between tokens: well-formed with an empty window.
    pub open spec fn ready(self) -> bool {
        self.wf() && self@.head == self@.tail
    }

    /// Bound keeping the row counter free of overflow for the rest of the
    /// buffer: one newline per remaining byte at most.
    pub open spec fn row_in_range(self) -> bool {
        self@.row + (self@.buf.len() - self@.tail) <= isize::MAX
    }

    /// Constructs a scanner positioned at the start of `chars`, counting
    /// rows from `starting_row`.
    pub fn new(chars: &'a [u8], starting_row: isize) -> (t: Self)
        ensures
            t@ == (TokenizerModel {
                buf: chars@,
                head: 0,
                tail: 0,
                row: starting_row as int,
                line_start: 0,
            }),
            t.ready(),
    {
        Tokenizer {
            sub_tokens: chars,
            window_head: 0,
            window_tail: 0,
            row: starting_row,
            last_newline: 0,
        }
    }

    /// Rebinds the scanner to a new buffer without reallocation, as if
    /// freshly constructed.
    pub fn reset(&mut self, content: &'a [u8], starting_row: isize)
        ensures
            final(self)@ == (TokenizerModel {
                buf: content@,
                head: 0,
                tail: 0,
                row: starting_row as int,
                line_start: 0,
            }),
            final(self).ready(),
    {
        self.sub_tokens = content;
        self.window_head = 0;
        self.window_tail = 0;
        self.row = starting_row;
        self.last_newline = 0;
    }

    /// Advances the window head by one byte.
    pub fn window_head_increment(&mut self)
        requires
            old(self)@.head < old(self)@.tail,
        ensures
            final(self)@ == (TokenizerModel { head: old(self)@.head + 1, ..old(self)@ }),
    {
        self.window_head = self.window_head + 1;
    }

    /// Advances the window head by `n` bytes.
    pub fn window_head_increment_n(&mut self, n: usize)
        requires
            old(self)@.head + n <= old(self)@.tail,
        ensures
            final(self)@ == (TokenizerModel { head: old(self)@.head + n, ..old(self)@ }),
    {
        self.window_head = self.window_head + n;
    }

    /// Index of the window head in the buffer.
    pub fn window_head_index(&self) -> (r: usize)
        ensures
            r as int == self@.head,
    {
        self.window_head
    }

    /// Resets the window head to the window tail, discarding the pending
    /// lexeme.
    pub fn window_head_reset(&mut self)
        ensures
            final(self)@ == (TokenizerModel { head: old(self)@.tail, ..old(self)@ }),
    {
        self.window_head = self.window_tail;
    }

    /// Advances the window tail by one byte.
    pub fn window_tail_increment(&mut self)
        requires
            old(self)@.tail < old(self)@.buf.len(),
        ensures
            final(self)@ == (TokenizerModel { tail: old(self)@.tail + 1, ..old(self)@ }),
    {
        proof {
            vstd::slice::axiom_spec_len(self.sub_tokens);
        }
        self.window_tail = self.window_tail + 1;
    }

    /// Advances the window tail by `n` bytes.
    pub fn window_tail_increment_n(&mut self, n: usize)
        requires
            old(self)@.tail + n <= old(self)@.buf.len(),
        ensures
            final(self)@ == (TokenizerModel { tail: old(self)@.tail + n, ..old(self)@ }),
    {
        proof {
            vstd::slice::axiom_spec_len(self.sub_tokens);
        }
        self.window_tail = self.window_tail + n;
    }

    /// Index of the window tail in the buffer.
    pub fn window_tail_index(&self) -> (r: usize)
        ensures
            r as int == self@.tail,
    {
        self.window_tail
    }

    /// Length of the current window.
    pub fn window_len(&self) -> (r: usize)
        requires
            self@.head <= self@.tail,
        ensures
            r as int == self@.tail - self@.head,
    {
        self.window_tail - self.window_head
    }

    /// Whether `n` more bytes fit between the window tail and the end of the
    /// buffer.
    pub fn is_window_in_bounds(&self, n: usize) -> (r: bool)
        ensures
            r == (self@.tail + n <= self@.buf.len()),
    {
        n <= self.sub_tokens.len() && self.window_tail <= self.sub_tokens.len() - n
    }

    /// Whether the current window is empty.
    pub fn is_window_empty(&self) -> (r: bool)
        ensures
            r == (self@.head == self@.tail),
    {
        self.window_head == self.window_tail
    }

    /// Whether the scan position has reached the end of the buffer.
    pub fn is_slice_empty(&self) -> (r: bool)
        ensures
            r == (self@.tail == self@.buf.len()),
    {
        self.window_tail == self.sub_tokens.len()
    }

    /// Advances the scan cursor by one byte; the column, being the offset
    /// from the most recent newline, advances with it.
    pub fn increment_cursor(&mut self)
        requires
            old(self)@.tail < old(self)@.buf.len(),
        ensures
            final(self)@ == (TokenizerModel { tail: old(self)@.tail + 1, ..old(self)@ }),
    {
        proof {
            vstd::slice::axiom_spec_len(self.sub_tokens);
        }
        self.window_tail = self.window_tail + 1;
    }

    /// Advances the scan cursor by `n` bytes.
    pub fn increment_cursor_by_n(&mut self, n: usize)
        requires
            old(self)@.tail + n <= old(self)@.buf.len(),
        ensures
            final(self)@ == (TokenizerModel { tail: old(self)@.tail + n, ..old(self)@ }),
    {
        proof {
            vstd::slice::axiom_spec_len(self.sub_tokens);
        }
        self.window_tail = self.window_tail + n;
    }

    /// The byte one position ahead of the scan cursor.
    pub fn peek_ahead_window(&self) -> (r: u8)
        requires
            self@.tail + 1 < self@.buf.len(),
        ensures
            r == self@.buf[self@.tail + 1],
    {
        proof {
            vstd::slice::axiom_spec_len(self.sub_tokens);
        }
        *slice_index_get(self.sub_tokens, self.window_tail + 1)
    }

    /// Skips the byte at the scan position, discarding the pending lexeme.
    pub fn skip_sub_token(&mut self)
        requires
            old(self)@.tail < old(self)@.buf.len(),
        ensures
            final(self)@ == (TokenizerModel {
                head: old(self)@.tail + 1,
                tail: old(self)@.tail + 1,
                ..old(self)@
            }),
    {
        proof {
            vstd::slice::axiom_spec_len(self.sub_tokens);
        }
        self.window_tail = self.window_tail + 1;
        self.window_head = self.window_tail;
    }

    /// Resets the column to zero by moving the baseline to the scan
    /// position.
    pub fn column_reset(&mut self)
        ensures
            final(self)@ == (TokenizerModel { line_start: old(self)@.tail, ..old(self)@ }),
    {
        self.last_newline = self.window_tail;
    }

    /// Advances the row by one and resets the column.
    pub fn increment_row(&mut self)
        requires
            old(self)@.row < isize::MAX,
        ensures
            final(self)@ == (TokenizerModel {
                row: old(self)@.row + 1,
                line_start: old(self)@.tail,
                ..old(self)@
            }),
    {
        self.row = self.row + 1;
        self.last_newline = self.window_tail;
    }

    /// Advances the row by `n` and resets the column.
    pub fn row_increment_n(&mut self, n: isize)
        requires
            isize::MIN <= old(self)@.row + n <= isize::MAX,
        ensures
            final(self)@ == (TokenizerModel {
                row: old(self)@.row + n,
                line_start: old(self)@.tail,
                ..old(self)@
            }),
    {
        self.row = self.row + n;
        self.last_newline = self.window_tail;
    }

    /// Consumes one byte at the scan position, advancing the row and moving
    /// the column baseline when that byte is a newline.
    fn bump(&mut self)
        requires
            old(self).wf(),
            old(self)@.tail < old(self)@.buf.len(),
            old(self)@.row < isize::MAX,
        ensures
            final(self)@ == (TokenizerModel {
                tail: old(self)@.tail + 1,
                row: old(self)@.row + if is_newline(old(self)@.buf[old(self)@.tail]) {
                    1int
                } else {
                    0int
                },
                line_start: if is_newline(old(self)@.buf[old(self)@.tail]) {
                    old(self)@.tail + 1
                } else {
                    old(self)@.line_start
                },
                ..old(self)@
            }),
            final(self).wf(),
    {
        proof {
            vstd::slice::axiom_spec_len(self.sub_tokens);
        }
        let c = *slice_index_get(self.sub_tokens, self.window_tail);
        self.window_tail = self.window_tail + 1;
        if c == NEWLINE {
            self.row = self.row + 1;
            self.last_newline = self.window_tail;
        }
    }

    /// Discards leading whitespace, keeping the window empty and the row and
    /// column baseline synchronized with the bytes consumed.
    fn skip_leading_whitespace(&mut self)
        requires
            old(self).ready(),
            old(self).row_in_range(),
        ensures
            final(self).ready(),
            final(self).row_in_range(),
            final(self)@.buf == old(self)@.buf,
            final(self)@.tail == skip_whitespace(old(self)@.buf, old(self)@.tail),
            final(self)@.row == old(self)@.row + newlines_between(
                old(self)@.buf,
                old(self)@.tail,
                final(self)@.tail,
            ),
            final(self)@.line_start == line_start_between(
                old(self)@.buf,
                old(self)@.line_start,
                old(self)@.tail,
                final(self)@.tail,
            ),
            old(self)@.tail <= final(self)@.tail,
    {
        let ghost s = self.sub_tokens@;
        let ghost t0 = self@.tail;
        let ghost row0 = self@.row;
        let ghost ls0 = self@.line_start;
        while self.window_tail < self.sub_tokens.len() && byte_is_whitespace(
            *slice_index_get(self.sub_tokens, self.window_tail),
        )
            invariant
                self.wf(),
                self@.head == self@.tail,
                self@.buf == s,
                t0 <= self@.tail <= s.len(),
                skip_whitespace(s, t0) == skip_whitespace(s, self@.tail),
                self@.row == row0 + newlines_between(s, t0, self@.tail),
                self@.line_start == line_start_between(s, ls0, t0, self@.tail),
                self@.row + (s.len() - self@.tail) <= isize::MAX,
            decreases s.len() - self@.tail,
        {
            self.bump();
            self.window_head = self.window_tail;
        }
    }

    /// Consumes the identifier-continuation run at the scan position; rows
    /// and columns are unaffected because no such byte is a newline.
    fn scan_identifier_run(&mut self)
        requires
            old(self).wf(),
        ensures
            final(self)@ == (TokenizerModel {
                tail: scan_identifier(old(self)@.buf, old(self)@.tail),
                ..old(self)@
            }),
            old(self)@.tail <= final(self)@.tail <= old(self)@.buf.len(),
            final(self).wf(),
    {
        let ghost s = self.sub_tokens@;
        let ghost t0 = self@.tail;
        proof {
            lemma_scan_identifier(s, t0);
        }
        while self.window_tail < self.sub_tokens.len() && byte_is_identifier_continue(
            *slice_index_get(self.sub_tokens, self.window_tail),
        )
            invariant
                self.wf(),
                self@.buf == s,
                self@.head == old(self)@.head,
                self@.row == old(self)@.row,
                self@.line_start == old(self)@.line_start,
                t0 <= self@.tail <= s.len(),
                scan_identifier(s, t0) == scan_identifier(s, self@.tail),
            decreases s.len() - self@.tail,
        {
            self.window_tail_increment();
        }
    }

    /// Consumes the remainder of a numeric literal - digits, separators and
    /// at most one decimal point - and returns its category; a second
    /// decimal point consumes that byte and surfaces as `Unknown`.
    fn scan_number_run(&mut self) -> (ty: TokenType)
        requires
            old(self).wf(),
        ensures
            final(self)@ == (TokenizerModel {
                tail: scan_number(old(self)@.buf, old(self)@.tail, false).0,
                ..old(self)@
            }),
            ty == scan_number(old(self)@.buf, old(self)@.tail, false).1,
            old(self)@.tail <= final(self)@.tail <= old(self)@.buf.len(),
            final(self).wf(),
    {
        let ghost s = self.sub_tokens@;
        let ghost t0 = self@.tail;
        let mut is_float = false;
        let mut ty = TokenType::IntegerLiteral;
        proof {
            crate::scan::lemma_scan_number_bounds(s, t0, false);
        }
        loop
            invariant_except_break
                scan_number(s, t0, false) == scan_number(s, self@.tail, is_float),
            invariant
                self.wf(),
                self@.buf == s,
                self@.head == old(self)@.head,
                self@.row == old(self)@.row,
                self@.line_start == old(self)@.line_start,
                t0 <= self@.tail <= s.len(),
            ensures
                self@.tail == scan_number(s, t0, false).0,
                ty == scan_number(s, t0, false).1,
            decreases s.len() - self@.tail,
        {
            if self.window_tail == self.sub_tokens.len() {
                ty = if is_float {
                    TokenType::FloatLiteral
                } else {
                    TokenType::IntegerLiteral
                };
                break ;
            }
            let c = *slice_index_get(self.sub_tokens, self.window_tail);
            if byte_is_digit(c) || byte_is_numeric_separator(c) {
                self.window_tail_increment();
            } else if c == DOT {
                if is_float {
                    self.window_tail_increment();
                    ty = TokenType::Unknown;
                    break ;
                } else {
                    is_float = true;
                    self.window_tail_increment();
                }
            } else {
                ty = if is_float {
                    TokenType::FloatLiteral
                } else {
                    TokenType::IntegerLiteral
                };
                break ;
            }
        }
        ty
    }

    /// Consumes the body of a quoted literal up to and including its
    /// terminator, or to the end of input, tracking rows across embedded
    /// newlines; returns the completeness flag.
    fn scan_literal_run(&mut self, q: u8) -> (complete: bool)
        requires
            old(self).wf(),
            old(self).row_in_range(),
        ensures
            final(self)@.tail == scan_literal(old(self)@.buf, old(self)@.tail, q).0,
            complete == scan_literal(old(self)@.buf, old(self)@.tail, q).1,
            final(self)@.buf == old(self)@.buf,
            final(self)@.head == old(self)@.head,
            final(self)@.row == old(self)@.row + newlines_between(
                old(self)@.buf,
                old(self)@.tail,
                final(self)@.tail,
            ),
            final(self)@.line_start == line_start_between(
                old(self)@.buf,
                old(self)@.line_start,
                old(self)@.tail,
                final(self)@.tail,
            ),
            old(self)@.tail <= final(self)@.tail <= old(self)@.buf.len(),
            final(self).wf(),
            final(self).row_in_range(),
    {
        let ghost s = self.sub_tokens@;
        let ghost t0 = self@.tail;
        let ghost row0 = self@.row;
        let ghost ls0 = self@.line_start;
        let mut complete = false;
        proof {
            crate::scan::lemma_scan_literal_bounds(s, t0, q);
        }
        loop
            invariant_except_break
                scan_literal(s, t0, q) == scan_literal(s, self@.tail, q),
            invariant
                self.wf(),
                self@.buf == s,
                self@.head == old(self)@.head,
                t0 <= self@.tail <= s.len(),
                self@.row == row0 + newlines_between(s, t0, self@.tail),
                self@.line_start == line_start_between(s, ls0, t0, self@.tail),
                self@.row + (s.len() - self@.tail) <= isize::MAX,
            ensures
                self@.tail == scan_literal(s, t0, q).0,
                complete == scan_literal(s, t0, q).1,
            decreases s.len() - self@.tail,
        {
            if self.window_tail == self.sub_tokens.len() {
                complete = false;
                break ;
            }
            let c = *slice_index_get(self.sub_tokens, self.window_tail);
            if c == q {
                self.bump();
                complete = true;
                break ;
            } else if c == BACKSLASH && self.is_window_in_bounds(2) && *slice_index_get(
                self.sub_tokens,
                self.window_tail + 1,
            ) == q {
                let ghost tl = self@.tail;
                self.bump();
                proof {
                    assert(newlines_between(s, t0, tl + 1) == newlines_between(s, t0, tl)
                        + if is_newline(s[tl]) {
                        1int
                    } else {
                        0int
                    });
                    assert(line_start_between(s, ls0, t0, tl + 1) == if is_newline(s[tl]) {
                        tl + 1
                    } else {
                        line_start_between(s, ls0, t0, tl)
                    });
                }
                self.bump();
            } else {
                self.bump();
            }
        }
        complete
    }

    /// Advances the scanner and returns the next token, or `None` exactly
    /// when only whitespace (or nothing) remains.  The token returned is the
    /// one the spec-level scan [`token_at`] finds at the first
    /// non-whitespace position: its text is the corresponding slice of the
    /// buffer, its row counts the newlines consumed so far, and its column
    /// is the byte offset since the most recent newline.  Every `Some`
    /// result makes forward progress: at least one byte is consumed.
    pub fn next(&mut self) -> (r: Option<Token<'a>>)
        requires
            old(self).ready(),
            old(self).row_in_range(),
        ensures
            final(self).ready(),
            final(self).row_in_range(),
            final(self)@.buf == old(self)@.buf,
            ({
                let s = old(self)@.buf;
                let t0 = old(self)@.tail;
                let p = skip_whitespace(s, t0);
                match r {
                    None => {
                        &&& p == s.len()
                        &&& final(self)@.tail == s.len()
                        &&& final(self)@.row == old(self)@.row + newlines_between(
                            s,
                            t0,
                            s.len() as int,
                        )
                        &&& final(self)@.line_start == line_start_between(
                            s,
                            old(self)@.line_start,
                            t0,
                            s.len() as int,
                        )
                    },
                    Some(t) => {
                        let st = token_at(s, p);
                        &&& p < s.len()
                        &&& t@.start == st.start
                        &&& t@.text == s.subrange(st.start, st.end)
                        &&& t@.ty == st.ty
                        &&& t@.complete == st.complete
                        &&& t@.row == old(self)@.row + newlines_between(s, t0, p)
                        &&& t@.column == p - line_start_between(
                            s,
                            old(self)@.line_start,
                            t0,
                            p,
                        )
                        &&& final(self)@.tail == st.end
                        &&& t0 < st.end <= s.len()
                        &&& final(self)@.row == old(self)@.row + newlines_between(s, t0, st.end)
                        &&& final(self)@.line_start == line_start_between(
                            s,
                            old(self)@.line_start,
                            t0,
                            st.end,
                        )
                    },
                }
            }),
    {
        let ghost s = self.sub_tokens@;
        let ghost t0 = self@.tail;
        let ghost row_base = self@.row;
        let ghost ls_base = self@.line_start;

        self.skip_leading_whitespace();

        let ghost p = self@.tail;
        proof {
            lemma_skip_whitespace(s, t0);
        }

        if self.window_tail == self.sub_tokens.len() {
            return None;
        }

        let token_row = self.row;
        let token_column = self.window_tail - self.last_newline;
        let b = *slice_index_get(self.sub_tokens, self.window_tail);
        let ghost st = token_at(s, p);
        let ghost row1 = self@.row;
        let ghost ls1 = self@.line_start;
        proof {
            lemma_token_at_progress(s, p);
            lemma_line_start_between_bounds(s, ls_base, t0, p);
        }

        let ty: TokenType;
        let mut complete = true;

        if byte_is_operator_lead(b) {
            let len = self.sub_tokens.len();
            if len - self.window_tail >= 3 && match_op3(
                b,
                *slice_index_get(self.sub_tokens, self.window_tail + 1),
                *slice_index_get(self.sub_tokens, self.window_tail + 2),
            ) {
                self.window_tail_increment_n(3);
                ty = TokenType::Operator;
            } else if len - self.window_tail >= 2 && match_op2(
                b,
                *slice_index_get(self.sub_tokens, self.window_tail + 1),
            ) {
                self.window_tail_increment_n(2);
                ty = TokenType::Operator;
            } else if match_op1(b) {
                self.window_tail_increment();
                ty = TokenType::Operator;
            } else if byte_is_separator(b) {
                self.window_tail_increment();
                ty = TokenType::Delimiter;
            } else {
                self.window_tail_increment();
                ty = TokenType::Unknown;
            }
            proof {
                assert forall|j: int| p <= j < self@.tail implies !is_newline(#[trigger] s[j])
                by {
                }
                lemma_no_newlines(s, self@.line_start, p, self@.tail);
            }
        } else if byte_is_delimiter(b) || byte_is_separator(b) {
            self.window_tail_increment();
            ty = TokenType::Delimiter;
            proof {
                lemma_no_newlines(s, self@.line_start, p, self@.tail);
            }
        } else if byte_is_quote(b) {
            self.bump();
            complete = self.scan_literal_run(b);
            ty = if b == crate::pattern::DOUBLE_QUOTE {
                TokenType::StringLiteral
            } else {
                TokenType::CharLiteral
            };
            proof {
                assert(newlines_between(s, p, p) == 0);
                assert(newlines_between(s, p, p + 1) == 0);
                assert(line_start_between(s, ls1, p, p) == ls1);
                assert(line_start_between(s, ls1, p, p + 1) == ls1);
                lemma_newlines_between_split(s, p, p + 1, self@.tail);
                lemma_line_start_between_split(s, ls1, p, p + 1, self@.tail);
            }
        } else if byte_is_identifier_start(b) {
            self.scan_identifier_run();
            proof {
                lemma_scan_identifier(s, p);
                lemma_no_newlines(s, self@.line_start, p, self@.tail);
            }
            let ghost j = self@.tail;
            if self.window_tail < self.sub_tokens.len() && byte_is_quote(
                *slice_index_get(self.sub_tokens, self.window_tail),
            ) && byte_is_quote_prefix(
                *slice_index_get(self.sub_tokens, self.window_tail - 1),
            ) {
                let q = *slice_index_get(self.sub_tokens, self.window_tail);
                self.bump();
                complete = self.scan_literal_run(q);
                ty = if q == crate::pattern::DOUBLE_QUOTE {
                    TokenType::StringLiteral
                } else {
                    TokenType::CharLiteral
                };
                proof {
                    lemma_scan_identifier(s, p);
                    assert forall|k: int| p <= k < j + 1 implies !is_newline(#[trigger] s[k])
                    by {
                    }
                    lemma_no_newlines(s, ls1, p, j + 1);
                    lemma_newlines_between_split(s, p, j + 1, self@.tail);
                    lemma_line_start_between_split(s, ls1, p, j + 1, self@.tail);
                }
            } else {
                ty = TokenType::Identifier;
            }
        } else if byte_is_digit(b) {
            self.window_tail_increment();
            ty = self.scan_number_run();
            proof {
                lemma_scan_number_chars(s, p + 1, false);
                assert forall|j: int| p <= j < self@.tail implies !is_newline(#[trigger] s[j])
                by {
                }
                lemma_no_newlines(s, self@.line_start, p, self@.tail);
            }
        } else {
            self.window_tail_increment();
            ty = TokenType::Unknown;
            proof {
                lemma_no_newlines(s, self@.line_start, p, self@.tail);
            }
        }

        proof {
            assert(self@.tail == st.end);
            assert(ty == st.ty);
            assert(complete == st.complete);
            lemma_newlines_between_split(s, t0, p, st.end);
            lemma_line_start_between_split(s, ls_base, t0, p, st.end);
            lemma_newlines_between_bounds(s, p, st.end);
        }

        let text = slice_subrange(self.sub_tokens, self.window_head, self.window_tail);
        let start = self.window_head;
        let tok = Token::new(text, start, token_row, token_column, ty, complete);
        self.window_head = self.window_tail;
        Some(tok)
    }

    /// A cheap single-pass estimate of the number of tokens in the buffer:
    /// each string-literal span counts once, as does each alphanumeric or
    /// punctuation byte outside string literals.
    pub fn fast_estimate_number_of_tokens(&self) -> (count: usize)
        ensures
            count as int == spec_token_estimate(self@.buf),
    {
        let ghost s = self.sub_tokens@;
        let mut count: usize = 0;
        let mut in_string = false;
        let mut prev: u8 = 0;
        let mut i: usize = 0;
        while i < self.sub_tokens.len()
            invariant
                i <= s.len(),
                count <= i,
                self.sub_tokens@ == s,
                count as int + estimate_from(s, i as int, in_string, prev)
                    == spec_token_estimate(s),
            decreases s.len() - i,
        {
            let c = *slice_index_get(self.sub_tokens, i);
            if byte_is_quote(c) && in_string && prev != BACKSLASH {
                in_string = false;
            } else if byte_is_quote(c) && !in_string {
                in_string = true;
                count = count + 1;
            } else if !in_string && (byte_is_alphanumeric(c) || byte_is_punctuation(c)) {
                count = count + 1;
            }
            prev = c;
            i = i + 1;
        }
        count
    }

    /// Drains the scanner into a vector pre-sized with
    /// [`Self::fast_estimate_number_of_tokens`].  The result is exactly the
    /// model sequence [`token_models`] of the remaining input: a function of
    /// the buffer and the scanner position alone, which is what makes
    /// scanning deterministic and repeatable.
    #[verifier::rlimit(100)]
    pub fn gather_all_tokens(&mut self) -> (tokens: Vec<Token<'a>>)
        requires
            old(self).ready(),
            old(self).row_in_range(),
        ensures
            final(self).ready(),
            final(self)@.buf == old(self)@.buf,
            final(self)@.tail == old(self)@.buf.len(),
            tokens@.map_values(|t: Token<'a>| t@) == token_models(
                old(self)@.buf,
                old(self)@.tail,
                old(self)@.row,
                old(self)@.line_start,
            ),
    {
        let ghost s = self.sub_tokens@;
        let ghost t0 = self@.tail;
        let ghost row0 = self@.row;
        let ghost ls0 = self@.line_start;
        let estimate = self.fast_estimate_number_of_tokens();
        let mut tokens: Vec<Token<'a>> = Vec::with_capacity(estimate);
        loop
            invariant
                self.ready(),
                self.row_in_range(),
                self@.buf == s,
                t0 <= self@.tail <= s.len(),
                ls0 <= t0,
                self@.row == row0 + newlines_between(s, t0, self@.tail),
                self@.line_start == line_start_between(s, ls0, t0, self@.tail),
                token_models(s, t0, row0, ls0) == tokens@.map_values(|t: Token<'a>| t@)
                    + token_models(s, self@.tail, self@.row, self@.line_start),
            ensures
                self.ready(),
                self@.buf == s,
                self@.tail == s.len(),
                tokens@.map_values(|t: Token<'a>| t@) == token_models(s, t0, row0, ls0),
            decreases s.len() - self@.tail,
        {
            let ghost pre = self@;
            let ghost done = tokens@.map_values(|t: Token<'a>| t@);
            match self.next() {
                None => {
                    proof {
                        lemma_newlines_between_split(s, t0, pre.tail, s.len() as int);
                        lemma_line_start_between_split(s, ls0, t0, pre.tail, s.len() as int);
                        assert(spec_tokens(s, pre.tail) =~= Seq::<SpecToken>::empty());
                        assert(token_models(s, pre.tail, pre.row, pre.line_start)
                            =~= Seq::<TokenModel>::empty());
                        assert(tokens@.map_values(|t: Token<'a>| t@) =~= done
                            + Seq::<TokenModel>::empty());
                    }
                    break ;
                },
                Some(tok) => {
                    proof {
                        let p = skip_whitespace(s, pre.tail);
                        lemma_skip_whitespace(s, pre.tail);
                        lemma_token_at_progress(s, p);
                        let st = token_at(s, p);
                        lemma_newlines_between_split(s, t0, pre.tail, st.end);
                        lemma_line_start_between_split(s, ls0, t0, pre.tail, st.end);
                        let rest = spec_tokens(s, st.end);
                        let here = token_models(s, pre.tail, pre.row, pre.line_start);
                        let after = token_models(s, st.end, self@.row, self@.line_start);
                        assert(spec_tokens(s, pre.tail) == seq![st] + rest);
                        lemma_coverage(s, st.end);
                        lemma_line_start_between_bounds(s, pre.line_start, pre.tail, p);
                        assert forall|k: int| 0 <= k < rest.len() implies after[k] == here[
                            k + 1
                        ] by {
                            assert(st.end <= rest[k].start);
                            assert((seq![st] + rest)[k + 1] == rest[k]);
                            lemma_newlines_between_split(s, pre.tail, st.end, rest[k].start);
                            lemma_line_start_between_split(
                                s,
                                pre.line_start,
                                pre.tail,
                                st.end,
                                rest[k].start,
                            );
                        }
                        assert((seq![st] + rest)[0] == st);
                        assert(here[0] == tok@);
                        assert(here =~= seq![tok@] + after);
                    }
                    tokens.push(tok);
                    proof {
                        assert(tokens@.map_values(|t: Token<'a>| t@) =~= done + seq![tok@]);
                        assert(token_models(s, t0, row0, ls0) =~= tokens@.map_values(
                            |t: Token<'a>| t@,
                        ) + token_models(s, self@.tail, self@.row, self@.line_start));
                    }
                },
            }
        }
        tokens
    }
}

} // verus!
