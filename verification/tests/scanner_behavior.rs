use helix_lexer::token::{Token, TokenType};
use helix_lexer::tokenizer::Tokenizer;

fn texts(content: &str) -> Vec<String> {
    let mut tokenizer = Tokenizer::new(content.as_bytes(), 0);
    tokenizer
        .gather_all_tokens()
        .iter()
        .map(|t| t.as_str().to_string())
        .collect()
}

fn tokens(content: &str) -> Vec<(String, isize, usize, TokenType, bool)> {
    let mut tokenizer = Tokenizer::new(content.as_bytes(), 0);
    tokenizer
        .gather_all_tokens()
        .iter()
        .map(|t| {
            (
                t.as_str().to_string(),
                t.row(),
                t.column(),
                t.token_type(),
                t.is_complete(),
            )
        })
        .collect()
}

#[test]
fn greedy_longest_match() {
    let toks = tokens("===");
    assert_eq!(toks.len(), 1);
    assert_eq!(toks[0].0, "===");
    assert_eq!(toks[0].3, TokenType::Operator);

    assert_eq!(texts("=="), vec!["=="]);
    assert_eq!(texts("====" ), vec!["===", "="]);
    assert_eq!(texts("<<="), vec!["<<="]);
    assert_eq!(texts("..."), vec!["..."]);
    assert_eq!(texts(".."), vec![".."]);
    assert_eq!(texts("::"), vec!["::"]);
    assert_eq!(texts("a<=b"), vec!["a", "<=", "b"]);
    assert_eq!(texts("..="), vec!["..="]);
    assert_eq!(texts("x??y"), vec!["x", "??", "y"]);
    assert_eq!(texts("|:"), vec!["|:"]);
    assert_eq!(texts("a->b"), vec!["a", "->", "b"]);
}

#[test]
fn unterminated_literal() {
    let content = "\"abc";
    let mut tokenizer = Tokenizer::new(content.as_bytes(), 0);
    let token = tokenizer.next().expect("one token");
    assert_eq!(token.token_type(), TokenType::StringLiteral);
    assert_eq!(token.as_str(), "\"abc");
    assert!(!token.is_complete());
    assert!(tokenizer.next().is_none());
}

#[test]
fn escaped_quote() {
    let content = "\"a\\\"b\"";
    let mut tokenizer = Tokenizer::new(content.as_bytes(), 0);
    let token = tokenizer.next().expect("one token");
    assert_eq!(token.token_type(), TokenType::StringLiteral);
    assert!(token.is_complete());
    assert_eq!(token.as_str(), "\"a\\\"b\"");
    assert!(tokenizer.next().is_none());
}

#[test]
fn end_to_end_scenario() {
    let content = "fn === main() { println!(\"Hello,\nworld!\"); \"Hello; \\\" world!\" if true != false { let x = 5 | b\"some\" | 'c'; } }";
    let toks = tokens(content);
    let want = vec![
        "fn",
        "===",
        "main",
        "(",
        ")",
        "{",
        "println",
        "!",
        "(",
        "\"Hello,\nworld!\"",
        ")",
        ";",
        "\"Hello; \\\" world!\"",
        "if",
        "true",
        "!=",
        "false",
        "{",
        "let",
        "x",
        "=",
        "5",
        "|",
        "b\"some\"",
        "|",
        "'c'",
        ";",
        "}",
        "}",
    ];
    assert_eq!(toks.len(), want.len());
    for (got, want) in toks.iter().zip(want.iter()) {
        assert_eq!(got.0, *want);
    }
    // The multi-line string starts on the first row; the embedded newline
    // moves every following token to the next row.
    assert_eq!(toks[9].1, 0);
    assert_eq!(toks[10].1, 1);
}

#[test]
fn numeric_separators() {
    let toks = tokens("1_000");
    assert_eq!(toks.len(), 1);
    assert_eq!(toks[0].0, "1_000");
    assert_eq!(toks[0].3, TokenType::IntegerLiteral);

    let toks = tokens("1.2.3");
    assert_eq!(toks.len(), 2);
    assert_eq!(toks[0].0, "1.2.");
    assert_eq!(toks[0].3, TokenType::Unknown);
    assert_eq!(toks[1].0, "3");
    assert_eq!(toks[1].3, TokenType::IntegerLiteral);
}

#[test]
fn float_literal() {
    let toks = tokens("3.14 2. 7");
    assert_eq!(toks[0].0, "3.14");
    assert_eq!(toks[0].3, TokenType::FloatLiteral);
    assert_eq!(toks[1].0, "2.");
    assert_eq!(toks[1].3, TokenType::FloatLiteral);
    assert_eq!(toks[2].0, "7");
    assert_eq!(toks[2].3, TokenType::IntegerLiteral);
}

#[test]
fn coverage_invariant_scenario() {
    let content = "fn main() {\n  let x = \"a b\"; 1_0 #\n}";
    let bytes = content.as_bytes();
    let mut tokenizer = Tokenizer::new(bytes, 0);
    let toks = tokenizer.gather_all_tokens();
    assert!(!toks.is_empty());
    let mut prev_end = 0usize;
    for t in toks.iter() {
        let start = t.start();
        assert!(prev_end <= start);
        for j in prev_end..start {
            assert!(bytes[j].is_ascii_whitespace());
        }
        assert_eq!(&bytes[start..start + t.len()], t.as_slice());
        prev_end = start + t.len();
    }
    for j in prev_end..bytes.len() {
        assert!(bytes[j].is_ascii_whitespace());
    }
}

#[test]
fn idempotence() {
    let content = "let x = \"multi\nline\"; 1.5 | b'q'";
    let first = tokens(content);
    let second = tokens(content);
    assert_eq!(first, second);

    let mut tokenizer = Tokenizer::new(content.as_bytes(), 0);
    let _ = tokenizer.gather_all_tokens();
    tokenizer.reset(content.as_bytes(), 0);
    let third: Vec<(String, isize, usize, TokenType, bool)> = tokenizer
        .gather_all_tokens()
        .iter()
        .map(|t| {
            (
                t.as_str().to_string(),
                t.row(),
                t.column(),
                t.token_type(),
                t.is_complete(),
            )
        })
        .collect();
    assert_eq!(first, third);
}

#[test]
fn rows_and_columns() {
    let toks = tokens("ab cd\nef");
    assert_eq!(toks[0].0, "ab");
    assert_eq!((toks[0].1, toks[0].2), (0, 0));
    assert_eq!(toks[1].0, "cd");
    assert_eq!((toks[1].1, toks[1].2), (0, 3));
    assert_eq!(toks[2].0, "ef");
    assert_eq!((toks[2].1, toks[2].2), (1, 0));
}

#[test]
fn column_after_multiline_literal() {
    let toks = tokens("x = \"a\nb\" y");
    assert_eq!(toks[0].0, "x");
    assert_eq!((toks[0].1, toks[0].2), (0, 0));
    assert_eq!(toks[1].0, "=");
    assert_eq!((toks[1].1, toks[1].2), (0, 2));
    assert_eq!(toks[2].0, "\"a\nb\"");
    assert_eq!((toks[2].1, toks[2].2), (0, 4));
    assert_eq!(toks[3].0, "y");
    assert_eq!((toks[3].1, toks[3].2), (1, 3));
}

#[test]
fn starting_row_offset() {
    let mut tokenizer = Tokenizer::new("a\nb".as_bytes(), 5);
    let a = tokenizer.next().unwrap();
    let b = tokenizer.next().unwrap();
    assert_eq!(a.row(), 5);
    assert_eq!(b.row(), 6);
}

#[test]
fn unknown_bytes() {
    let toks = tokens("#");
    assert_eq!(toks.len(), 1);
    assert_eq!(toks[0].0, "#");
    assert_eq!(toks[0].3, TokenType::Unknown);

    let toks = tokens(".");
    assert_eq!(toks.len(), 1);
    assert_eq!(toks[0].3, TokenType::Unknown);

    // A stray control character surfaces as data, never as a panic.
    let toks = tokens("a\u{1}b");
    assert_eq!(toks.len(), 3);
    assert_eq!(toks[1].3, TokenType::Unknown);
}

#[test]
fn forward_progress_on_adversarial_input() {
    let toks = tokens("\u{7f}\u{7f}\u{7f}");
    assert_eq!(toks.len(), 3);
    for t in toks.iter() {
        assert_eq!(t.3, TokenType::Unknown);
    }
}

#[test]
fn delimiters_and_separators() {
    let toks = tokens("{}()[],;:");
    let want = vec!["{", "}", "(", ")", "[", "]", ",", ";", ":"];
    assert_eq!(toks.len(), want.len());
    for (got, want) in toks.iter().zip(want.iter()) {
        assert_eq!(got.0, *want);
        assert_eq!(got.3, TokenType::Delimiter);
    }
}

#[test]
fn quote_prefix_literals() {
    let toks = tokens("r\"raw\" b's' u\"u\" f\"f\"");
    assert_eq!(toks.len(), 4);
    assert_eq!(toks[0].0, "r\"raw\"");
    assert_eq!(toks[0].3, TokenType::StringLiteral);
    assert_eq!(toks[1].0, "b's'");
    assert_eq!(toks[1].3, TokenType::CharLiteral);
    assert_eq!(toks[2].0, "u\"u\"");
    assert_eq!(toks[3].0, "f\"f\"");

    // A pending identifier whose last byte is a prefix flows into the
    // literal; one whose last byte is not ends before the quote.
    let toks = tokens("ab\"x\"");
    assert_eq!(toks.len(), 1);
    assert_eq!(toks[0].0, "ab\"x\"");
    assert_eq!(toks[0].3, TokenType::StringLiteral);

    let toks = tokens("ax\"y\"");
    assert_eq!(toks.len(), 2);
    assert_eq!(toks[0].0, "ax");
    assert_eq!(toks[0].3, TokenType::Identifier);
    assert_eq!(toks[1].0, "\"y\"");
}

#[test]
fn incomplete_char_literal() {
    let toks = tokens("'a");
    assert_eq!(toks.len(), 1);
    assert_eq!(toks[0].0, "'a");
    assert_eq!(toks[0].3, TokenType::CharLiteral);
    assert!(!toks[0].4);
}

#[test]
fn empty_and_whitespace_input() {
    let mut tokenizer = Tokenizer::new("".as_bytes(), 0);
    assert!(tokenizer.next().is_none());

    let mut tokenizer = Tokenizer::new(" \t\r\n ".as_bytes(), 0);
    assert!(tokenizer.next().is_none());
    assert!(tokenizer.is_slice_empty());
}

#[test]
fn token_accessors() {
    let content = "  fn";
    let mut tokenizer = Tokenizer::new(content.as_bytes(), 3);
    let token: Token = tokenizer.next().unwrap();
    assert_eq!(token.start(), 2);
    assert_eq!(token.len(), 2);
    assert_eq!(token.row(), 3);
    assert_eq!(token.column(), 2);
    assert_eq!(token.as_slice(), "fn".as_bytes());
    assert_eq!(token.as_str(), "fn");
    assert_eq!(token.token_type(), TokenType::Identifier);
    assert!(token.is_complete());
}

#[test]
fn fast_estimate() {
    assert_eq!(
        Tokenizer::new("ab cd".as_bytes(), 0).fast_estimate_number_of_tokens(),
        4
    );
    assert_eq!(
        Tokenizer::new("\"ab\" x".as_bytes(), 0).fast_estimate_number_of_tokens(),
        2
    );
    assert_eq!(
        Tokenizer::new("\"a\\\"b\" c".as_bytes(), 0).fast_estimate_number_of_tokens(),
        2
    );
    assert_eq!(
        Tokenizer::new("".as_bytes(), 0).fast_estimate_number_of_tokens(),
        0
    );
}
