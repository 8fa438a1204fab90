use helix_lexer::debug_counter::DebugCounter;
use helix_lexer::keywords::get_keyword;
use helix_lexer::numeric::NumericType;
use helix_lexer::params::PanicParams;
use helix_lexer::token_value::TokenValue;
use helix_lexer::tokenizer::Tokenizer;

#[test]
fn token_value_roundtrip() {
    let mut value = TokenValue::new_token(String::from("abc"));
    assert!(value.is_token());
    assert!(!value.is_line());
    assert_eq!(value.len(), 3);

    value.set_line(vec![String::from("a"), String::from("b")]);
    assert!(value.is_line());
    assert!(!value.is_token());
    assert_eq!(value.len(), 2);

    value.set_token(String::from("xy"));
    assert!(value.is_token());
    assert_eq!(value.len(), 2);

    let line = TokenValue::new_line(vec![String::from("only")]);
    assert!(line.is_line());
    assert_eq!(line.len(), 1);
}

#[test]
fn numeric_type_variants() {
    assert_eq!(NumericType::new(-7i32), NumericType::Int(-7));
    assert_eq!(NumericType::new(9u32), NumericType::Uint(9));
    assert_eq!(NumericType::default(), NumericType::Int(0));
}

#[test]
fn debug_counter_rotations() {
    let mut counter = DebugCounter::new();
    let colors: Vec<u8> = (0..13).map(|_| counter.color()).collect();
    assert_eq!(
        colors,
        vec![31, 32, 33, 35, 34, 36, 91, 92, 93, 94, 95, 96, 31]
    );

    let mut counter = DebugCounter::new();
    assert_eq!(counter.char(), '0');
    assert_eq!(counter.char(), '1');
    let mut c = '1';
    for _ in 0..8 {
        c = counter.char();
    }
    assert_eq!(c, '9');
    assert_eq!(counter.char(), 'a');
    let mut counter2 = DebugCounter::new();
    for _ in 0..36 {
        counter2.char();
    }
    assert_eq!(counter2.char(), 'A');
    counter.reset();
    assert_eq!(counter.char(), '0');
    assert_eq!(counter.color(), 31);
}

#[test]
fn keyword_lookup() {
    let k = get_keyword("if").expect("keyword");
    assert_eq!(k.ident, "if");
    assert!(!k.scoped);
    assert!(k.has_body);

    let k = get_keyword("for").expect("keyword");
    assert!(k.scoped);
    assert!(k.has_body);

    let k = get_keyword("return").expect("keyword");
    assert!(!k.scoped);
    assert!(!k.has_body);

    assert!(get_keyword("banana").is_none());
    assert!(get_keyword("If").is_none());
    assert!(get_keyword("").is_none());
}

#[test]
fn panic_params_default() {
    let params = PanicParams::default();
    assert!(params.file.is_none());
    assert!(params.line_no.is_none());
    assert!(params.no_lines.is_none());
    assert!(params.multi_frame.is_none());
    assert!(params.pos.is_none());
    assert!(params.replacements.is_none());
    assert!(params.follow_marked_order.is_none());
    assert!(params.mark_start.is_none());
    assert!(params.thread_name.is_none());
    assert!(params.no_exit.is_none());
    assert!(params.lang.is_none());
    assert!(params._code.is_none());
}

#[test]
fn window_helpers() {
    let tokenizer = Tokenizer::new("abc".as_bytes(), 0);
    assert!(tokenizer.is_window_empty());
    assert!(!tokenizer.is_slice_empty());
    assert_eq!(tokenizer.window_head_index(), 0);
    assert_eq!(tokenizer.window_tail_index(), 0);
    assert_eq!(tokenizer.window_len(), 0);
    assert!(tokenizer.is_window_in_bounds(3));
    assert!(!tokenizer.is_window_in_bounds(4));

    let mut tokenizer = Tokenizer::new("abc".as_bytes(), 0);
    tokenizer.window_tail_increment();
    assert_eq!(tokenizer.window_tail_index(), 1);
    assert_eq!(tokenizer.window_len(), 1);
    assert!(!tokenizer.is_window_empty());
    tokenizer.window_head_increment();
    assert!(tokenizer.is_window_empty());
    tokenizer.window_tail_increment_n(2);
    assert!(tokenizer.is_slice_empty());
    tokenizer.window_head_reset();
    assert_eq!(tokenizer.window_head_index(), 3);

    let mut tokenizer = Tokenizer::new("abc".as_bytes(), 0);
    tokenizer.increment_cursor();
    tokenizer.increment_cursor_by_n(2);
    assert_eq!(tokenizer.window_tail_index(), 3);

    let mut tokenizer = Tokenizer::new("abc".as_bytes(), 0);
    assert_eq!(tokenizer.peek_ahead_window(), b'b');
    tokenizer.skip_sub_token();
    assert_eq!(tokenizer.window_head_index(), 1);
    assert_eq!(tokenizer.window_tail_index(), 1);
    let token = tokenizer.next().unwrap();
    assert_eq!(token.as_str(), "bc");
}

#[test]
fn row_helpers() {
    let mut tokenizer = Tokenizer::new("x".as_bytes(), 0);
    tokenizer.increment_row();
    let token = tokenizer.next().unwrap();
    assert_eq!(token.row(), 1);

    let mut tokenizer = Tokenizer::new("x".as_bytes(), 0);
    tokenizer.row_increment_n(4);
    let token = tokenizer.next().unwrap();
    assert_eq!(token.row(), 4);

    // The column baseline moves to the scan position on a reset.
    let mut tokenizer = Tokenizer::new("ab x".as_bytes(), 0);
    let first = tokenizer.next().unwrap();
    assert_eq!(first.column(), 0);
    tokenizer.column_reset();
    let second = tokenizer.next().unwrap();
    assert_eq!(second.column(), 1);
}
