use helix_lexer::token::TokenType;
use helix_lexer::tokenizer::Tokenizer;

#[test]
fn single_operator_token() {
    let content = "===";
    let mut tokenizer = Tokenizer::new(content.as_bytes(), 0);
    let token = tokenizer.next().expect("one token");
    assert_eq!(token.as_str(), "===");
    assert_eq!(token.token_type(), TokenType::Operator);
    assert!(tokenizer.next().is_none());
}
