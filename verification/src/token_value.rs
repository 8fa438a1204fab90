//! A token value as carried by earlier pipeline stages: either one token
//! string or a whole line of token strings.

use vstd::prelude::*;

verus! {

/// One token string, or a parsed line of token strings.
#[derive(Clone, Debug, PartialEq, Eq, Hash)]
pub enum TokenValue {
    /// A parsed line of token strings.
    Line(Vec<String>),
    /// A single token string.
    Token(String),
}

impl TokenValue {
    /// Wraps a parsed line.
    pub fn new_line(line: Vec<String>) -> (r: Self)
        ensures
            r == TokenValue::Line(line),
    {
        TokenValue::Line(line)
    }

    /// Wraps a single token string.
    pub fn new_token(token: String) -> (r: Self)
        ensures
            r == TokenValue::Token(token),
    {
        TokenValue::Token(token)
    }

    /// The number of strings of a line, or the byte length of a single
    /// token.
    pub fn len(&self) -> (r: usize)
        ensures
            self matches TokenValue::Line(line) ==> r == line@.len(),
            self matches TokenValue::Token(token) ==> r == vstd::utf8::encode_utf8(
                token@,
            ).len() as usize,
    {
        match self {
            TokenValue::Line(line) => line.len(),
            TokenValue::Token(token) => token.as_str().len(),
        }
    }

    /// Replaces the value with a parsed line.
    pub fn set_line(&mut self, line: Vec<String>)
        ensures
            *final(self) == TokenValue::Line(line),
    {
        *self = TokenValue::Line(line);
    }

    /// Replaces the value with a single token string.
    pub fn set_token(&mut self, token: String)
        ensures
            *final(self) == TokenValue::Token(token),
    {
        *self = TokenValue::Token(token);
    }

    /// Whether this value is a parsed line.
    pub fn is_line(&self) -> (r: bool)
        ensures
            r == (self matches TokenValue::Line(_)),
    {
        match self {
            TokenValue::Line(_) => true,
            TokenValue::Token(_) => false,
        }
    }

    /// Whether this value is a single token string.
    pub fn is_token(&self) -> (r: bool)
        ensures
            r == (self matches TokenValue::Token(_)),
    {
        match self {
            TokenValue::Line(_) => false,
            TokenValue::Token(_) => true,
        }
    }
}

} // verus!
