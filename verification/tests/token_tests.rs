use monkey::token::{Token, TokenType};

#[test]
fn parse_test() {
    let tests = vec![
        ("=", TokenType::Assign),
        ("+", TokenType::Plus),
        (",", TokenType::Comma),
        (";", TokenType::Semicolon),
        ("(", TokenType::LParen),
        (")", TokenType::RParen),
        ("{", TokenType::LBrace),
        ("}", TokenType::RBrace),
        ("fn", TokenType::Function),
        ("let", TokenType::Let),
        ("if", TokenType::If),
    ];

    for (s, e) in tests {
        assert_eq!(s.parse::<TokenType>().unwrap(), e);
    }
}

#[test]
fn fail_parse() {
    assert!("TEST".parse::<TokenType>().is_err());
}

#[test]
fn parse_every_keyword_and_operator() {
    let tests = vec![
        ("-", TokenType::Minus),
        ("!", TokenType::Bang),
        ("*", TokenType::Asterisk),
        ("/", TokenType::Slash),
        ("<", TokenType::LessThan),
        (">", TokenType::GreaterThan),
        ("==", TokenType::Equal),
        ("!=", TokenType::NotEqual),
        ("return", TokenType::Return),
        ("true", TokenType::True),
        ("false", TokenType::False),
        ("else", TokenType::Else),
    ];

    for (s, e) in tests {
        assert_eq!(s.parse::<TokenType>().unwrap(), e);
    }
}

#[test]
fn lookup_indent_classifies_keywords() {
    let keywords = vec![
        ("fn", TokenType::Function),
        ("let", TokenType::Let),
        ("if", TokenType::If),
        ("return", TokenType::Return),
        ("true", TokenType::True),
        ("false", TokenType::False),
        ("else", TokenType::Else),
    ];

    for (s, e) in keywords {
        assert_eq!(TokenType::lookup_indent(&s.to_owned()), e);
    }
}

#[test]
fn lookup_indent_classifies_ordinary_identifiers() {
    for s in vec!["foobar", "lets", "fnx", "x", "_", "Return", ""] {
        assert_eq!(TokenType::lookup_indent(&s.to_owned()), TokenType::Identifier);
    }
}

#[test]
fn token_type_names() {
    assert_eq!(TokenType::Identifier.name(), "Identifier".to_owned());
    assert_eq!(TokenType::Assign.name(), "Assign".to_owned());
    assert_eq!(TokenType::EndOfInput.name(), "EndOfInput".to_owned());
    assert_eq!(TokenType::IntegerLiteral.name(), "IntegerLiteral".to_owned());
}

#[test]
fn token_new_keeps_kind_and_literal() {
    let t = Token::new(TokenType::IntegerLiteral, "42".to_owned());
    assert_eq!(t.token_type, TokenType::IntegerLiteral);
    assert_eq!(t.literal, "42".to_owned());
}
