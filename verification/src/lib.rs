//! Lexical scanner for the Helix language: a single-pass, zero-copy byte
//! scanner that turns source text into a sequence of classified tokens with
//! row/column information, never panicking on malformed input.

pub mod debug_counter;
pub mod keywords;
pub mod numeric;
pub mod params;
pub mod pattern;
pub mod scan;
pub mod token;
pub mod token_value;
pub mod tokenizer;

use vstd::prelude::*;

verus! {

/// Marker trait for components that expose a short static name, used by
/// diagnostics layered on top of the scanner.
pub trait Label {
    fn label() -> &'static str;
}

} // verus!
