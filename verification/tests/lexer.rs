use ble_schema::error::SchemaError;
use ble_schema::lexer::{tokenize, tokenize_bytes};
use ble_schema::token::Token;

fn show(tokens: &[Token]) -> Vec<String> {
    tokens
        .iter()
        .map(|t| match t {
            Token::Ident(bytes) => format!("i:{}", String::from_utf8_lossy(bytes)),
            Token::Str(bytes) => format!("s:{}", String::from_utf8_lossy(bytes)),
            Token::Colon => ":".to_string(),
            Token::Comma => ",".to_string(),
            Token::Assign => "=".to_string(),
            Token::Open => "(".to_string(),
            Token::Close => ")".to_string(),
        })
        .collect()
}

#[test]
fn words_marks_and_literals() {
    let tokens = tokenize("flags: (LE_Only,Bit3)\n\tuuid=\"2a 19\" _x9").unwrap();
    assert_eq!(
        show(&tokens),
        vec!["i:flags", ":", "(", "i:LE_Only", ",", "i:Bit3", ")", "i:uuid", "=", "s:2a 19", "i:_x9"]
    );
}

#[test]
fn empty_text_and_empty_literal() {
    assert!(tokenize("").unwrap().is_empty());
    assert!(tokenize(" \r\n").unwrap().is_empty());
    assert_eq!(show(&tokenize("\"\"").unwrap()), vec!["s:"]);
    assert_eq!(show(&tokenize("a\"b\"c").unwrap()), vec!["i:a", "s:b", "i:c"]);
}

#[test]
fn literal_keeps_its_bytes() {
    let tokens = tokenize_bytes(b"\"a:(,)=\xff\"").unwrap();
    match &tokens[0] {
        Token::Str(bytes) => assert_eq!(bytes, &b"a:(,)=\xff".to_vec()),
        other => panic!("{:?}", other),
    }
}

#[test]
fn faults() {
    assert_eq!(tokenize("\"open").unwrap_err(), SchemaError::BadStringLiteral);
    assert_eq!(tokenize("\"a\\\"b\"").unwrap_err(), SchemaError::BadStringLiteral);
    assert_eq!(tokenize("a ; b").unwrap_err(), SchemaError::UnexpectedByte);
    assert_eq!(tokenize("9lives").unwrap_err(), SchemaError::UnexpectedByte);
    assert_eq!(tokenize("caf\u{e9}").unwrap_err(), SchemaError::UnexpectedByte);
    assert_eq!(tokenize("# \"open").unwrap_err(), SchemaError::UnexpectedByte);
}

#[test]
fn token_builders_and_tests() {
    assert!(Token::ident("read").is_word("read"));
    assert!(!Token::ident("read").is_word("reads"));
    assert!(!Token::string("read").is_word("read"));
    assert!(Token::Comma.is_comma() && !Token::Colon.is_comma());
    assert!(Token::Colon.is_colon() && !Token::Assign.is_colon());
    assert!(Token::Assign.is_assign() && !Token::Open.is_assign());
    assert!(Token::Open.is_open() && !Token::Close.is_open());
    assert!(Token::Close.is_close() && !Token::Comma.is_close());
}
