use z80_assembler::parser::tokenizer::SimpleTokenizer;
use z80_assembler::parser::{ParseError, TokenValue};

#[test]
fn test1() {
    let mut parser = SimpleTokenizer::new(
        r#"
.test_label:
ADD    INC
.label2:
"#,
        0,
    );

    assert_eq!(TokenValue::NewLine, parser.next().unwrap().token);
    assert_eq!(TokenValue::Dot, parser.next().unwrap().token);
    assert_eq!(
        TokenValue::Identifier("test_label".to_string()),
        parser.next().unwrap().token
    );
    assert_eq!(TokenValue::Colon, parser.next().unwrap().token);
    assert_eq!(TokenValue::NewLine, parser.next().unwrap().token);
    assert_eq!(
        TokenValue::Identifier("ADD".to_string()),
        parser.next().unwrap().token
    );
    assert_eq!(
        TokenValue::Identifier("INC".to_string()),
        parser.next().unwrap().token
    );
    assert_eq!(TokenValue::NewLine, parser.next().unwrap().token);
    assert_eq!(TokenValue::Dot, parser.next().unwrap().token);
    assert_eq!(
        TokenValue::Identifier("label2".to_string()),
        parser.next().unwrap().token
    );
    assert_eq!(TokenValue::Colon, parser.next().unwrap().token);
}

#[test]
fn test_short_value() {
    let mut parser = SimpleTokenizer::new(r"add a, 3Ah", 0);

    assert_eq!(
        TokenValue::Identifier("add".to_string()),
        parser.next().unwrap().token
    );
    assert_eq!(
        TokenValue::Identifier("a".to_string()),
        parser.next().unwrap().token
    );
    assert_eq!(TokenValue::Comma, parser.next().unwrap().token);
    assert_eq!(TokenValue::Value(58, 1), parser.next().unwrap().token);
}

#[test]
fn test_wide_value() {
    let mut parser = SimpleTokenizer::new(r"add a, 3bAh", 0);

    assert_eq!(
        TokenValue::Identifier("add".to_string()),
        parser.next().unwrap().token
    );
    assert_eq!(
        TokenValue::Identifier("a".to_string()),
        parser.next().unwrap().token
    );
    assert_eq!(TokenValue::Comma, parser.next().unwrap().token);
    assert_eq!(TokenValue::Value(954, 2), parser.next().unwrap().token);
}

#[test]
fn test_instruction_with_address() {
    let mut parser = SimpleTokenizer::new(
        r#"ld bc, (2130h)
call"#,
        0,
    );

    assert_eq!(
        TokenValue::Identifier("ld".to_string()),
        parser.next().unwrap().token
    );
    assert_eq!(
        TokenValue::Identifier("bc".to_string()),
        parser.next().unwrap().token
    );
    assert_eq!(TokenValue::Comma, parser.next().unwrap().token);
    assert_eq!(TokenValue::OpenParen, parser.next().unwrap().token);
    assert_eq!(TokenValue::Value(8496, 2), parser.next().unwrap().token);
    assert_eq!(TokenValue::CloseParen, parser.next().unwrap().token);
    assert_eq!(TokenValue::NewLine, parser.next().unwrap().token);
    assert_eq!(
        TokenValue::Identifier("call".to_string()),
        parser.next().unwrap().token
    );
    assert_eq!(TokenValue::EOF, parser.next().unwrap().token);
}

#[test]
fn test_address_reg() {
    let mut parser = SimpleTokenizer::new(r#"(BC)"#, 0);
    assert_eq!(TokenValue::OpenParen, parser.next().unwrap().token);
    assert_eq!(
        TokenValue::Identifier("BC".to_string()),
        parser.next().unwrap().token
    );
    assert_eq!(TokenValue::CloseParen, parser.next().unwrap().token);
}

#[test]
fn test_address_reg_offset() {
    let mut parser = SimpleTokenizer::new(r#"(BC + 9h)"#, 0);
    assert_eq!(TokenValue::OpenParen, parser.next().unwrap().token);
    assert_eq!(
        TokenValue::Identifier("BC".to_string()),
        parser.next().unwrap().token
    );
    assert_eq!(TokenValue::Plus, parser.next().unwrap().token);
    assert_eq!(TokenValue::Value(9, 1), parser.next().unwrap().token);
    assert_eq!(TokenValue::CloseParen, parser.next().unwrap().token);
}

#[test]
fn test_peek_next() {
    let mut parser = SimpleTokenizer::new(r"add a, 3Ah", 0);

    assert_eq!(
        TokenValue::Identifier("add".to_string()),
        parser.peek().unwrap().token
    );
    assert_eq!(
        TokenValue::Identifier("add".to_string()),
        parser.next().unwrap().token
    );
    assert_eq!(
        TokenValue::Identifier("a".to_string()),
        parser.next().unwrap().token
    );
    assert_eq!(TokenValue::Comma, parser.peek().unwrap().token);
    assert_eq!(TokenValue::Comma, parser.next().unwrap().token);
    assert_eq!(TokenValue::Value(58, 1), parser.next().unwrap().token);
    assert_eq!(TokenValue::EOF, parser.next().unwrap().token);
}

#[test]
fn test_collect_all() {
    let mut parser = SimpleTokenizer::new("ld a, 3Ah", 0);
    let all = parser.collect_all().unwrap();
    assert_eq!(4, all.len());
    assert_eq!(TokenValue::Identifier("ld".to_string()), all[0].token);
    assert_eq!(TokenValue::Identifier("a".to_string()), all[1].token);
    assert_eq!(TokenValue::Comma, all[2].token);
    assert_eq!(TokenValue::Value(58, 1), all[3].token);
}

#[test]
fn test_comment_skipped() {
    let mut parser = SimpleTokenizer::new("nop ; sleep\nhalt", 0);
    assert_eq!(
        TokenValue::Identifier("nop".to_string()),
        parser.next().unwrap().token
    );
    assert_eq!(TokenValue::NewLine, parser.next().unwrap().token);
    assert_eq!(
        TokenValue::Identifier("halt".to_string()),
        parser.next().unwrap().token
    );
    assert_eq!(TokenValue::EOF, parser.next().unwrap().token);
}

#[test]
fn test_hex_width_three_digits() {
    let mut parser = SimpleTokenizer::new("aBCh", 0);
    assert_eq!(TokenValue::Value(0xABC, 2), parser.next().unwrap().token);
}

#[test]
fn test_uppercase_hex_suffix_is_identifier() {
    let mut parser = SimpleTokenizer::new("3AH", 0);
    assert_eq!(
        TokenValue::Identifier("3AH".to_string()),
        parser.next().unwrap().token
    );
}

#[test]
fn test_unexpected_char() {
    let mut parser = SimpleTokenizer::new("ld $", 0);
    assert_eq!(
        TokenValue::Identifier("ld".to_string()),
        parser.next().unwrap().token
    );
    assert_eq!(ParseError::UnexpectedChar('$', 1), parser.next().unwrap_err());
}
