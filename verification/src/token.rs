//! The token value type.
//!
//! A [`Token`] is an immutable description of one lexeme: a borrowed view
//! into the source buffer, the row and column at which it starts, a category
//! tag, and a completeness flag (false only for a literal that reached the
//! end of input before its closing quote).

use vstd::prelude::*;

verus! {

/// The category of a token.
#[derive(Clone, Copy, Debug, PartialEq, Eq, Structural)]
pub enum TokenType {
    /// A name: letters, digits and underscores, starting with a letter or
    /// underscore.  Keyword recognition is deferred to the parser.
    Identifier,
    /// One of the bracketing delimiters `{ } ( ) [ ]` or the separators
    /// `, ; :`.
    Delimiter,
    /// An operator of one, two or three bytes, matched greedily.
    Operator,
    /// A `"`-quoted literal, including any prefix and both quotes.
    StringLiteral,
    /// A `'`-quoted literal, including any prefix and both quotes.
    CharLiteral,
    /// A numeric literal without a decimal point.
    IntegerLiteral,
    /// A numeric literal with one decimal point.
    FloatLiteral,
    /// A comment; reserved for a later stage, never produced by the scanner.
    Comment,
    /// A byte or short sequence that matched no classification rule.
    Unknown,
}

/// The mathematical view of a token: its byte range in the source buffer,
/// its text, position, category and completeness.
pub struct TokenModel {
    /// Index of the token's first byte in the source buffer.
    pub start: int,
    /// The token's bytes.
    pub text: Seq<u8>,
    /// Row at which the token starts.
    pub row: int,
    /// Byte offset of the token's first byte since the most recent newline.
    pub column: int,
    /// The category tag.
    pub ty: TokenType,
    /// False only for a literal cut short by the end of input.
    pub complete: bool,
}

/// One lexeme, borrowed from the source buffer.
#[derive(Clone, Copy, Debug)]
pub struct Token<'a> {
    sub_tokens: &'a [u8],
    start: usize,
    row: isize,
    column: usize,
    ty: TokenType,
    complete: bool,
}

impl<'a> View for Token<'a> {
    type V = TokenModel;

    closed spec fn view(&self) -> TokenModel {
        TokenModel {
            start: self.start as int,
            text: self.sub_tokens@,
            row: self.row as int,
            column: self.column as int,
            ty: self.ty,
            complete: self.complete,
        }
    }
}

impl<'a> Token<'a> {
    /// Builds a token from its bytes and metadata.
    pub fn new(chars: &'a [u8], start: usize, row: isize, column: usize, ty: TokenType, complete: bool) -> (t: Self)
        ensures
            t@ == (TokenModel {
                start: start as int,
                text: chars@,
                row: row as int,
                column: column as int,
                ty,
                complete,
            }),
    {
        Token { sub_tokens: chars, start, row, column, ty, complete }
    }

    /// The token's bytes, borrowed from the source buffer.
    pub fn as_slice(&self) -> (r: &'a [u8])
        ensures
            r@ == self@.text,
    {
        self.sub_tokens
    }

    /// The token's text as UTF-8.
    ///
    /// Relies on `core::str::from_utf8`: a sequence of ASCII bytes is valid
    /// UTF-8 and decodes to exactly those characters.  The classification
    /// tables are ASCII-only, so every token over an ASCII buffer is ASCII.
    #[verifier::external_body]
    pub fn as_str(&self) -> (r: &'a str)
        requires
            forall|i: int| 0 <= i < self@.text.len() ==> self@.text[i] < 128,
        ensures
            r@.len() == self@.text.len(),
            forall|i: int| 0 <= i < r@.len() ==> r@[i] == self@.text[i] as char,
    {
        match core::str::from_utf8(self.sub_tokens) {
            Ok(s) => s,
            Err(_) => "",
        }
    }

    /// Index of the token's first byte in the source buffer.
    pub fn start(&self) -> (r: usize)
        ensures
            r as int == self@.start,
    {
        self.start
    }

    /// Row at which the token starts.
    pub fn row(&self) -> (r: isize)
        ensures
            r as int == self@.row,
    {
        self.row
    }

    /// Byte offset of the token's first byte since the most recent newline.
    pub fn column(&self) -> (r: usize)
        ensures
            r as int == self@.column,
    {
        self.column
    }

    /// The token's length in bytes.
    pub fn len(&self) -> (r: usize)
        ensures
            r as int == self@.text.len(),
    {
        self.sub_tokens.len()
    }

    /// The category tag.
    pub fn token_type(&self) -> (r: TokenType)
        ensures
            r == self@.ty,
    {
        self.ty
    }

    /// False only for a literal that reached the end of input before its
    /// closing quote.
    pub fn is_complete(&self) -> (r: bool)
        ensures
            r == self@.complete,
    {
        self.complete
    }
}

} // verus!
