//! Optional parameters handed to the diagnostics layer when a failure is
//! reported.  Every field defaults to absent; the reporting side fills in
//! what it knows.

use std::collections::HashMap;

use vstd::prelude::*;

use crate::numeric::NumericType;

verus! {

/// Optional parameters for a diagnostics report.
pub struct PanicParams<'a> {
    /// Source file the report concerns.
    pub file: Option<&'a str>,
    /// Line number the report concerns.
    pub line_no: Option<NumericType>,
    /// Suppress the source-line excerpt.
    pub no_lines: Option<bool>,
    /// Render every stack frame rather than the innermost one.
    pub multi_frame: Option<bool>,
    /// Column marker position inside the excerpt.
    pub pos: Option<i8>,
    /// Textual replacements applied to the rendered message.
    pub replacements: Option<HashMap<&'a str, &'a str>>,
    /// Follow explicitly marked frames in the order given.
    pub follow_marked_order: Option<bool>,
    /// First marked frame to render.
    pub mark_start: Option<u32>,
    /// Thread the report concerns.
    pub thread_name: Option<&'a str>,
    /// Report without terminating the process.
    pub no_exit: Option<bool>,
    /// Language tag of the frame the report concerns.
    pub lang: Option<&'a str>,
    /// Error code to attach.
    pub _code: Option<&'a str>,
}

impl Default for PanicParams<'_> {
    /// The empty report: every parameter absent.
    fn default() -> (r: Self)
        ensures
            r.file is None,
            r.line_no is None,
            r.no_lines is None,
            r.multi_frame is None,
            r.pos is None,
            r.replacements is None,
            r.follow_marked_order is None,
            r.mark_start is None,
            r.thread_name is None,
            r.no_exit is None,
            r.lang is None,
            r._code is None,
    {
        PanicParams {
            file: None,
            line_no: None,
            no_lines: None,
            multi_frame: None,
            pos: None,
            replacements: None,
            follow_marked_order: None,
            mark_start: None,
            thread_name: None,
            no_exit: None,
            lang: None,
            _code: None,
        }
    }
}

} // verus!
