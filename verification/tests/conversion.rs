use token_model::types::{InfixOperation, RepData, Token, TokenType};

fn every_kind() -> Vec<TokenType> {
    vec![
        TokenType::PRINT,
        TokenType::STRING,
        TokenType::FUNCTION,
        TokenType::RPAREN,
        TokenType::LPAREN,
        TokenType::RETURN,
        TokenType::NULL,
        TokenType::NUMBER,
        TokenType::BINOP(InfixOperation::Addition),
        TokenType::BINOP(InfixOperation::Subtraction),
        TokenType::BINOP(InfixOperation::Multiplication),
        TokenType::BINOP(InfixOperation::Division),
    ]
}

#[test]
fn check_token_into() {
    let tokentype_1 = TokenType::LPAREN;
    let tokentype_2 = TokenType::STRING;
    let expected_token_1 = Token {
        kind: TokenType::LPAREN,
        value: None,
    };
    let expected_token_2 = Token {
        kind: TokenType::STRING,
        value: Some(RepData::STRING("".to_string())),
    };

    assert_eq!(expected_token_1, tokentype_1.into());
    assert_eq!(expected_token_2, tokentype_2.into());
}

#[test]
fn print_and_string_start_with_empty_text() {
    let print = Token::from(TokenType::PRINT);
    assert_eq!(print.kind, TokenType::PRINT);
    assert_eq!(print.value, Some(RepData::STRING(String::new())));

    let string = Token::from(TokenType::STRING);
    assert_eq!(string.kind, TokenType::STRING);
    assert_eq!(string.value, Some(RepData::STRING(String::new())));
}

#[test]
fn other_kinds_start_without_payload() {
    for kind in every_kind() {
        if kind == TokenType::PRINT || kind == TokenType::STRING {
            continue;
        }
        let token = Token::from(kind.clone());
        assert_eq!(token.kind, kind);
        assert_eq!(token.value, None);
    }
}

#[test]
fn conversion_keeps_the_kind() {
    for kind in every_kind() {
        let token: Token = kind.clone().into();
        assert_eq!(token.kind, kind);
    }
}

#[test]
fn conversion_keeps_the_operator() {
    let token = Token::from(TokenType::BINOP(InfixOperation::Division));
    assert_eq!(
        token,
        Token { kind: TokenType::BINOP(InfixOperation::Division), value: None }
    );
    assert_ne!(
        token,
        Token { kind: TokenType::BINOP(InfixOperation::Addition), value: None }
    );
}

#[test]
fn left_paren_starts_bare() {
    let token = Token::from(TokenType::LPAREN);
    assert_eq!(token, Token { kind: TokenType::LPAREN, value: None });
}

#[test]
fn string_starts_equal_to_explicit_construction() {
    let converted = Token::from(TokenType::STRING);
    let explicit = Token { kind: TokenType::STRING, value: Some(RepData::STRING("".to_owned())) };
    assert_eq!(converted, explicit);
    assert_eq!(explicit, converted);
}
