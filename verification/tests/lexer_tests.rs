use monkey::lexer::Lexer;
use monkey::token::TokenType;

#[test]
fn test_next_token() {
    let input = r#"
    let five = 5;
    let ten = 10;

    let add = fn(x, y) {
        x + y;
    };

    let result = add(five, ten);
    !-/*5;
    5 < 10 > 5;

    if (5 < 10) {
        return true;
    } else {
        return false;
    }
    10 == 10;
    10 != 9;
    "#
        .to_owned();

    let tests = vec![
        ("let", TokenType::Let),
        ("five", TokenType::Identifier),
        ("=", TokenType::Assign),
        ("5", TokenType::IntegerLiteral),
        (";", TokenType::Semicolon),
        ("let", TokenType::Let),
        ("ten", TokenType::Identifier),
        ("=", TokenType::Assign),
        ("10", TokenType::IntegerLiteral),
        (";", TokenType::Semicolon),
        ("let", TokenType::Let),
        ("add", TokenType::Identifier),
        ("=", TokenType::Assign),
        ("fn", TokenType::Function),
        ("(", TokenType::LParen),
        ("x", TokenType::Identifier),
        (",", TokenType::Comma),
        ("y", TokenType::Identifier),
        (")", TokenType::RParen),
        ("{", TokenType::LBrace),
        ("x", TokenType::Identifier),
        ("+", TokenType::Plus),
        ("y", TokenType::Identifier),
        (";", TokenType::Semicolon),
        ("}", TokenType::RBrace),
        (";", TokenType::Semicolon),
        ("let", TokenType::Let),
        ("result", TokenType::Identifier),
        ("=", TokenType::Assign),
        ("add", TokenType::Identifier),
        ("(", TokenType::LParen),
        ("five", TokenType::Identifier),
        (",", TokenType::Comma),
        ("ten", TokenType::Identifier),
        (")", TokenType::RParen),
        (";", TokenType::Semicolon),
        ("!", TokenType::Bang),
        ("-", TokenType::Minus),
        ("/", TokenType::Slash),
        ("*", TokenType::Asterisk),
        ("5", TokenType::IntegerLiteral),
        (";", TokenType::Semicolon),
        ("5", TokenType::IntegerLiteral),
        ("<", TokenType::LessThan),
        ("10", TokenType::IntegerLiteral),
        (">", TokenType::GreaterThan),
        ("5", TokenType::IntegerLiteral),
        (";", TokenType::Semicolon),
        ("if", TokenType::If),
        ("(", TokenType::LParen),
        ("5", TokenType::IntegerLiteral),
        ("<", TokenType::LessThan),
        ("10", TokenType::IntegerLiteral),
        (")", TokenType::RParen),
        ("{", TokenType::LBrace),
        ("return", TokenType::Return),
        ("true", TokenType::True),
        (";", TokenType::Semicolon),
        ("}", TokenType::RBrace),
        ("else", TokenType::Else),
        ("{", TokenType::LBrace),
        ("return", TokenType::Return),
        ("false", TokenType::False),
        (";", TokenType::Semicolon),
        ("}", TokenType::RBrace),
        ("10", TokenType::IntegerLiteral),
        ("==", TokenType::Equal),
        ("10", TokenType::IntegerLiteral),
        (";", TokenType::Semicolon),
        ("10", TokenType::IntegerLiteral),
        ("!=", TokenType::NotEqual),
        ("9", TokenType::IntegerLiteral),
        (";", TokenType::Semicolon),
        ("", TokenType::EndOfInput),
    ];

    let mut lexer = Lexer::new(input);
    for (literal, token_type) in tests {
        let token = lexer.next_token();
        assert_eq!(literal.to_owned(), token.literal);
        assert_eq!(token_type, token.token_type);
    }
}

#[test]
fn lookahead_equal_consumes_two_characters() {
    let mut lexer = Lexer::new("==".to_owned());
    let token = lexer.next_token();
    assert_eq!(token.token_type, TokenType::Equal);
    assert_eq!(token.literal, "==".to_owned());
    assert_eq!(lexer.next_token().token_type, TokenType::EndOfInput);
}

#[test]
fn lookahead_assign_consumes_one_character() {
    let mut lexer = Lexer::new("=5".to_owned());
    let token = lexer.next_token();
    assert_eq!(token.token_type, TokenType::Assign);
    assert_eq!(token.literal, "=".to_owned());
    let token = lexer.next_token();
    assert_eq!(token.token_type, TokenType::IntegerLiteral);
    assert_eq!(token.literal, "5".to_owned());
}

#[test]
fn lookahead_assign_at_end_of_input() {
    let mut lexer = Lexer::new("=".to_owned());
    let token = lexer.next_token();
    assert_eq!(token.token_type, TokenType::Assign);
    assert_eq!(token.literal, "=".to_owned());
    assert_eq!(lexer.next_token().token_type, TokenType::EndOfInput);
}

#[test]
fn lookahead_not_equal_and_bang() {
    let mut lexer = Lexer::new("!= !x !".to_owned());
    let token = lexer.next_token();
    assert_eq!(token.token_type, TokenType::NotEqual);
    assert_eq!(token.literal, "!=".to_owned());
    let token = lexer.next_token();
    assert_eq!(token.token_type, TokenType::Bang);
    assert_eq!(token.literal, "!".to_owned());
    assert_eq!(lexer.next_token().token_type, TokenType::Identifier);
    let token = lexer.next_token();
    assert_eq!(token.token_type, TokenType::Bang);
    assert_eq!(token.literal, "!".to_owned());
    assert_eq!(lexer.next_token().token_type, TokenType::EndOfInput);
}

#[test]
fn end_of_input_is_idempotent() {
    let mut lexer = Lexer::new("x".to_owned());
    assert_eq!(lexer.next_token().token_type, TokenType::Identifier);
    for _ in 0..5 {
        let token = lexer.next_token();
        assert_eq!(token.token_type, TokenType::EndOfInput);
        assert_eq!(token.literal, "".to_owned());
    }
}

#[test]
fn empty_input_yields_end_of_input() {
    let mut lexer = Lexer::new("".to_owned());
    let token = lexer.next_token();
    assert_eq!(token.token_type, TokenType::EndOfInput);
    assert_eq!(token.literal, "".to_owned());
}

#[test]
fn whitespace_only_input_yields_end_of_input() {
    let mut lexer = Lexer::new(" \t\r\n ".to_owned());
    assert_eq!(lexer.next_token().token_type, TokenType::EndOfInput);
}

#[test]
fn illegal_character_is_consumed() {
    let mut lexer = Lexer::new("@;".to_owned());
    let token = lexer.next_token();
    assert_eq!(token.token_type, TokenType::Illegal);
    assert_eq!(token.literal, "@".to_owned());
    assert_eq!(lexer.next_token().token_type, TokenType::Semicolon);
    assert_eq!(lexer.next_token().token_type, TokenType::EndOfInput);
}

#[test]
fn identifiers_do_not_swallow_digits() {
    let mut lexer = Lexer::new("abc123 _x".to_owned());
    let token = lexer.next_token();
    assert_eq!(token.token_type, TokenType::Identifier);
    assert_eq!(token.literal, "abc".to_owned());
    let token = lexer.next_token();
    assert_eq!(token.token_type, TokenType::IntegerLiteral);
    assert_eq!(token.literal, "123".to_owned());
    let token = lexer.next_token();
    assert_eq!(token.token_type, TokenType::Identifier);
    assert_eq!(token.literal, "_x".to_owned());
}

#[test]
fn read_char_advances_the_cursors() {
    let mut lexer = Lexer::new("ab".to_owned());
    assert_eq!(lexer.position, 0);
    assert_eq!(lexer.ch, Some('a'));
    lexer.read_char();
    assert_eq!(lexer.position, 1);
    assert_eq!(lexer.ch, Some('b'));
    lexer.read_char();
    assert_eq!(lexer.position, 2);
    assert_eq!(lexer.ch, None);
    lexer.read_char();
    assert_eq!(lexer.position, 2);
    assert_eq!(lexer.ch, None);
}
