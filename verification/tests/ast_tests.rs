use monkey::ast::{Expression, ExpressionStatement, Identifier, LetStatement, Program, ReturnStatement, Statement};
use monkey::token::{Token, TokenType};

#[test]
fn test_to_stirng() {
    let token = Token::new(TokenType::Let, "let".to_owned());
    let identifier = Identifier::new(
        Token::new(TokenType::Identifier, "myVar".to_owned()),
        "myVar".to_owned(),
    );
    let value = Identifier::new(
        Token::new(TokenType::Identifier, "anotherVar".to_owned()),
        "anotherVar".to_owned(),
    );

    let let_statement = LetStatement::new(token, identifier, Some(Expression::Identifier(value)));
    let program = Program { statements: vec![Statement::Let(let_statement)] };

    assert_eq!(program.to_string(), "let myVar = anotherVar;");
}

#[test]
fn let_statement_without_value_renders_empty_value() {
    let token = Token::new(TokenType::Let, "let".to_owned());
    let identifier = Identifier::new(
        Token::new(TokenType::Identifier, "x".to_owned()),
        "x".to_owned(),
    );
    let let_statement = LetStatement::new(token, identifier, None);
    assert_eq!(let_statement.to_string(), "let x = ;");
}

#[test]
fn return_statement_renders_keyword_and_semicolon() {
    let return_statement =
        ReturnStatement { token: Token::new(TokenType::Return, "return".to_owned()) };
    assert_eq!(return_statement.to_string(), "return;");
    assert_eq!(return_statement.token_literal(), "return");
}

#[test]
fn expression_statement_renders_its_expression() {
    let with_expression = ExpressionStatement {
        token: Token::new(TokenType::Identifier, "foo".to_owned()),
        expression: Some(Expression::Identifier(Identifier::new(
            Token::new(TokenType::Identifier, "foo".to_owned()),
            "foo".to_owned(),
        ))),
    };
    assert_eq!(with_expression.to_string(), "foo");

    let without_expression = ExpressionStatement {
        token: Token::new(TokenType::Identifier, "foo".to_owned()),
        expression: None,
    };
    assert_eq!(without_expression.to_string(), "");
}

#[test]
fn program_concatenates_statements_in_order() {
    let first = LetStatement::new(
        Token::new(TokenType::Let, "let".to_owned()),
        Identifier::new(Token::new(TokenType::Identifier, "a".to_owned()), "a".to_owned()),
        Some(Expression::Identifier(Identifier::new(
            Token::new(TokenType::Identifier, "b".to_owned()),
            "b".to_owned(),
        ))),
    );
    let second =
        ReturnStatement { token: Token::new(TokenType::Return, "return".to_owned()) };
    let program = Program::new(vec![Statement::Let(first), Statement::Return(second)]);

    assert_eq!(program.to_string(), "let a = b;return;");
    assert_eq!(program.token_literal(), "let");
}

#[test]
fn empty_program_has_empty_token_literal() {
    let program = Program::new(vec![]);
    assert_eq!(program.token_literal(), "");
    assert_eq!(program.to_string(), "");
}
