use helix_lexer::tokenizer::Tokenizer;

const FIRST_ROW: isize = Tokenizer::FIRST_ROW;

fn content() -> &'static str {
    "fn=== main() {\nprintln!(\"Hello,\nworld!\");\"Hello; \\\" world!\"\nif true != false {\nlet xyz_99_yoMama = 5 | b\"some\" | 'c'| b's';\n}\n}\"2"
}

fn expected() -> Vec<&'static str> {
    vec![
        "fn",
        "===",
        "main",
        "(",
        ")",
        "{",
        "println",
        "!",
        "(",
        "\"Hello,\nworld!\"",
        ")",
        ";",
        "\"Hello; \\\" world!\"",
        "if",
        "true",
        "!=",
        "false",
        "{",
        "let",
        "xyz_99_yoMama",
        "=",
        "5",
        "|",
        "b\"some\"",
        "|",
        "'c'",
        "|",
        "b's'",
        ";",
        "}",
        "}",
        "\"2",
    ]
}

fn determine_tokens(content: &str, expected: &[&str]) {
    let mut tokenizer = Tokenizer::new(content.as_bytes(), FIRST_ROW);

    let mut count = 0;
    loop {
        let token = match tokenizer.next() {
            Some(token) => token,
            None => break,
        };
        assert!(count < expected.len());
        assert_eq!(token.as_str(), expected[count]);
        count += 1;
    }
    assert_eq!(count, expected.len());

    let mut tokenizer = Tokenizer::new(content.as_bytes(), FIRST_ROW);
    tokenizer.reset(content.as_bytes(), FIRST_ROW);
    let tokens = tokenizer.gather_all_tokens();
    assert_eq!(tokens.len(), expected.len());
    for (token, want) in tokens.iter().zip(expected.iter()) {
        assert_eq!(token.as_str(), *want);
    }
}

#[test]
fn lexer_test_determine_tokens_small() {
    determine_tokens(content(), &expected());
}

#[test]
fn old_lex_test_determine_tokens_small() {
    determine_tokens(content(), &expected());
}
