//! The keyword table: a static identifier-to-metadata lookup consumed by
//! the parsing stage.  The scanner itself never consults it; identifier
//! tokens carry their raw text and keyword recognition is deferred.

use vstd::prelude::*;
use vstd::slice::slice_index_get;
use vstd::string::StringSliceAdditionalSpecFns;

verus! {

/// Metadata of one reserved word: its spelling, whether it opens a scope,
/// and whether it requires a following body.
#[derive(Clone, Copy, Debug, PartialEq, Eq, Hash)]
pub struct Keyword {
    /// The keyword's spelling.
    pub ident: &'static str,
    /// Whether the keyword introduces a scope.
    pub scoped: bool,
    /// Whether the keyword requires a following body.
    pub has_body: bool,
}

/// Byte-wise slice equality.
fn bytes_eq(a: &[u8], b: &[u8]) -> (r: bool)
    ensures
        r == (a@ == b@),
{
    if a.len() != b.len() {
        return false;
    }
    let mut i: usize = 0;
    while i < a.len()
        invariant
            i <= a@.len(),
            a@.len() == b@.len(),
            forall|j: int| 0 <= j < i ==> a@[j] == b@[j],
        decreases a@.len() - i,
    {
        if *slice_index_get(a, i) != *slice_index_get(b, i) {
            return false;
        }
        i = i + 1;
    }
    proof {
        assert(a@ =~= b@);
    }
    true
}

/// String equality over views, decided by comparing the UTF-8 bytes.
fn str_eq(a: &str, b: &str) -> (r: bool)
    ensures
        r == (a@ == b@),
{
    let r = bytes_eq(a.as_bytes(), b.as_bytes());
    proof {
        if a.spec_bytes() == b.spec_bytes() {
            vstd::utf8::encode_utf8_decode_utf8(a@);
            vstd::utf8::encode_utf8_decode_utf8(b@);
        }
    }
    r
}

/// The metadata the table associates with the given spelling, or `None` for
/// a spelling that is no keyword.
pub open spec fn spec_get_keyword(s: Seq<char>) -> Option<Keyword> {
    if s == "if"@ {
        Some(Keyword { ident: "if", scoped: false, has_body: true })
    }
    else if s == "elif"@ {
        Some(Keyword { ident: "elif", scoped: false, has_body: true })
    }
    else if s == "else"@ {
        Some(Keyword { ident: "else", scoped: false, has_body: true })
    }
    else if s == "while"@ {
        Some(Keyword { ident: "while", scoped: false, has_body: true })
    }
    else if s == "for"@ {
        Some(Keyword { ident: "for", scoped: true, has_body: true })
    }
    else if s == "case"@ {
        Some(Keyword { ident: "case", scoped: false, has_body: true })
    }
    else if s == "default"@ {
        Some(Keyword { ident: "default", scoped: false, has_body: true })
    }
    else if s == "match"@ {
        Some(Keyword { ident: "match", scoped: false, has_body: false })
    }
    else if s == "switch"@ {
        Some(Keyword { ident: "switch", scoped: false, has_body: false })
    }
    else if s == "break"@ {
        Some(Keyword { ident: "break", scoped: false, has_body: false })
    }
    else if s == "continue"@ {
        Some(Keyword { ident: "continue", scoped: false, has_body: false })
    }
    else if s == "fn"@ {
        Some(Keyword { ident: "fn", scoped: true, has_body: true })
    }
    else if s == "lambda"@ {
        Some(Keyword { ident: "lambda", scoped: true, has_body: true })
    }
    else if s == "thread"@ {
        Some(Keyword { ident: "thread", scoped: true, has_body: true })
    }
    else if s == "macro"@ {
        Some(Keyword { ident: "macro", scoped: true, has_body: true })
    }
    else if s == "operator"@ {
        Some(Keyword { ident: "operator", scoped: true, has_body: true })
    }
    else if s == "async"@ {
        Some(Keyword { ident: "async", scoped: false, has_body: false })
    }
    else if s == "delegate"@ {
        Some(Keyword { ident: "delegate", scoped: false, has_body: false })
    }
    else if s == "return"@ {
        Some(Keyword { ident: "return", scoped: false, has_body: false })
    }
    else if s == "class"@ {
        Some(Keyword { ident: "class", scoped: true, has_body: true })
    }
    else if s == "struct"@ {
        Some(Keyword { ident: "struct", scoped: true, has_body: true })
    }
    else if s == "enum"@ {
        Some(Keyword { ident: "enum", scoped: true, has_body: true })
    }
    else if s == "union"@ {
        Some(Keyword { ident: "union", scoped: true, has_body: true })
    }
    else if s == "interface"@ {
        Some(Keyword { ident: "interface", scoped: true, has_body: true })
    }
    else if s == "abstract"@ {
        Some(Keyword { ident: "abstract", scoped: true, has_body: true })
    }
    else if s == "type"@ {
        Some(Keyword { ident: "type", scoped: false, has_body: false })
    }
    else if s == "typeof"@ {
        Some(Keyword { ident: "typeof", scoped: false, has_body: false })
    }
    else if s == "sizeof"@ {
        Some(Keyword { ident: "sizeof", scoped: false, has_body: false })
    }
    else if s == "instanceof"@ {
        Some(Keyword { ident: "instanceof", scoped: false, has_body: false })
    }
    else if s == "try"@ {
        Some(Keyword { ident: "try", scoped: false, has_body: true })
    }
    else if s == "catch"@ {
        Some(Keyword { ident: "catch", scoped: false, has_body: true })
    }
    else if s == "except"@ {
        Some(Keyword { ident: "except", scoped: false, has_body: true })
    }
    else if s == "finally"@ {
        Some(Keyword { ident: "finally", scoped: false, has_body: true })
    }
    else if s == "throw"@ {
        Some(Keyword { ident: "throw", scoped: false, has_body: false })
    }
    else if s == "private"@ {
        Some(Keyword { ident: "private", scoped: false, has_body: false })
    }
    else if s == "protected"@ {
        Some(Keyword { ident: "protected", scoped: false, has_body: false })
    }
    else if s == "public"@ {
        Some(Keyword { ident: "public", scoped: false, has_body: false })
    }
    else if s == "const"@ {
        Some(Keyword { ident: "const", scoped: false, has_body: false })
    }
    else if s == "final"@ {
        Some(Keyword { ident: "final", scoped: false, has_body: false })
    }
    else if s == "static"@ {
        Some(Keyword { ident: "static", scoped: false, has_body: false })
    }
    else if s == "unsafe"@ {
        Some(Keyword { ident: "unsafe", scoped: false, has_body: false })
    }
    else if s == "let"@ {
        Some(Keyword { ident: "let", scoped: false, has_body: false })
    }
    else if s == "var"@ {
        Some(Keyword { ident: "var", scoped: false, has_body: false })
    }
    else if s == "auto"@ {
        Some(Keyword { ident: "auto", scoped: false, has_body: false })
    }
    else if s == "import"@ {
        Some(Keyword { ident: "import", scoped: false, has_body: false })
    }
    else if s == "using"@ {
        Some(Keyword { ident: "using", scoped: false, has_body: false })
    }
    else if s == "from"@ {
        Some(Keyword { ident: "from", scoped: false, has_body: false })
    }
    else if s == "yield"@ {
        Some(Keyword { ident: "yield", scoped: false, has_body: false })
    }
    else if s == "await"@ {
        Some(Keyword { ident: "await", scoped: false, has_body: false })
    }
    else {
        None
    }
}

/// Looks a spelling up in the keyword table.
#[verifier::rlimit(100)]
pub fn get_keyword(ident: &str) -> (r: Option<Keyword>)
    ensures
        r == spec_get_keyword(ident@),
{
    if str_eq(ident, "if") {
        Some(Keyword { ident: "if", scoped: false, has_body: true })
    } else if str_eq(ident, "elif") {
        Some(Keyword { ident: "elif", scoped: false, has_body: true })
    } else if str_eq(ident, "else") {
        Some(Keyword { ident: "else", scoped: false, has_body: true })
    } else if str_eq(ident, "while") {
        Some(Keyword { ident: "while", scoped: false, has_body: true })
    } else if str_eq(ident, "for") {
        Some(Keyword { ident: "for", scoped: true, has_body: true })
    } else if str_eq(ident, "case") {
        Some(Keyword { ident: "case", scoped: false, has_body: true })
    } else if str_eq(ident, "default") {
        Some(Keyword { ident: "default", scoped: false, has_body: true })
    } else if str_eq(ident, "match") {
        Some(Keyword { ident: "match", scoped: false, has_body: false })
    } else if str_eq(ident, "switch") {
        Some(Keyword { ident: "switch", scoped: false, has_body: false })
    } else if str_eq(ident, "break") {
        Some(Keyword { ident: "break", scoped: false, has_body: false })
    } else if str_eq(ident, "continue") {
        Some(Keyword { ident: "continue", scoped: false, has_body: false })
    } else if str_eq(ident, "fn") {
        Some(Keyword { ident: "fn", scoped: true, has_body: true })
    } else if str_eq(ident, "lambda") {
        Some(Keyword { ident: "lambda", scoped: true, has_body: true })
    } else if str_eq(ident, "thread") {
        Some(Keyword { ident: "thread", scoped: true, has_body: true })
    } else if str_eq(ident, "macro") {
        Some(Keyword { ident: "macro", scoped: true, has_body: true })
    } else if str_eq(ident, "operator") {
        Some(Keyword { ident: "operator", scoped: true, has_body: true })
    } else if str_eq(ident, "async") {
        Some(Keyword { ident: "async", scoped: false, has_body: false })
    } else if str_eq(ident, "delegate") {
        Some(Keyword { ident: "delegate", scoped: false, has_body: false })
    } else if str_eq(ident, "return") {
        Some(Keyword { ident: "return", scoped: false, has_body: false })
    } else if str_eq(ident, "class") {
        Some(Keyword { ident: "class", scoped: true, has_body: true })
    } else if str_eq(ident, "struct") {
        Some(Keyword { ident: "struct", scoped: true, has_body: true })
    } else if str_eq(ident, "enum") {
        Some(Keyword { ident: "enum", scoped: true, has_body: true })
    } else if str_eq(ident, "union") {
        Some(Keyword { ident: "union", scoped: true, has_body: true })
    } else if str_eq(ident, "interface") {
        Some(Keyword { ident: "interface", scoped: true, has_body: true })
    } else if str_eq(ident, "abstract") {
        Some(Keyword { ident: "abstract", scoped: true, has_body: true })
    } else if str_eq(ident, "type") {
        Some(Keyword { ident: "type", scoped: false, has_body: false })
    } else if str_eq(ident, "typeof") {
        Some(Keyword { ident: "typeof", scoped: false, has_body: false })
    } else if str_eq(ident, "sizeof") {
        Some(Keyword { ident: "sizeof", scoped: false, has_body: false })
    } else if str_eq(ident, "instanceof") {
        Some(Keyword { ident: "instanceof", scoped: false, has_body: false })
    } else if str_eq(ident, "try") {
        Some(Keyword { ident: "try", scoped: false, has_body: true })
    } else if str_eq(ident, "catch") {
        Some(Keyword { ident: "catch", scoped: false, has_body: true })
    } else if str_eq(ident, "except") {
        Some(Keyword { ident: "except", scoped: false, has_body: true })
    } else if str_eq(ident, "finally") {
        Some(Keyword { ident: "finally", scoped: false, has_body: true })
    } else if str_eq(ident, "throw") {
        Some(Keyword { ident: "throw", scoped: false, has_body: false })
    } else if str_eq(ident, "private") {
        Some(Keyword { ident: "private", scoped: false, has_body: false })
    } else if str_eq(ident, "protected") {
        Some(Keyword { ident: "protected", scoped: false, has_body: false })
    } else if str_eq(ident, "public") {
        Some(Keyword { ident: "public", scoped: false, has_body: false })
    } else if str_eq(ident, "const") {
        Some(Keyword { ident: "const", scoped: false, has_body: false })
    } else if str_eq(ident, "final") {
        Some(Keyword { ident: "final", scoped: false, has_body: false })
    } else if str_eq(ident, "static") {
        Some(Keyword { ident: "static", scoped: false, has_body: false })
    } else if str_eq(ident, "unsafe") {
        Some(Keyword { ident: "unsafe", scoped: false, has_body: false })
    } else if str_eq(ident, "let") {
        Some(Keyword { ident: "let", scoped: false, has_body: false })
    } else if str_eq(ident, "var") {
        Some(Keyword { ident: "var", scoped: false, has_body: false })
    } else if str_eq(ident, "auto") {
        Some(Keyword { ident: "auto", scoped: false, has_body: false })
    } else if str_eq(ident, "import") {
        Some(Keyword { ident: "import", scoped: false, has_body: false })
    } else if str_eq(ident, "using") {
        Some(Keyword { ident: "using", scoped: false, has_body: false })
    } else if str_eq(ident, "from") {
        Some(Keyword { ident: "from", scoped: false, has_body: false })
    } else if str_eq(ident, "yield") {
        Some(Keyword { ident: "yield", scoped: false, has_body: false })
    } else if str_eq(ident, "await") {
        Some(Keyword { ident: "await", scoped: false, has_body: false })
    } else {
        None
    }
}

} // verus!
