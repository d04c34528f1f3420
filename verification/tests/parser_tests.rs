use monkey::lexer::Lexer;
use monkey::parser::{ParseError, ParseErrorKind, Parser};
use monkey::token::TokenType;

#[test]
fn test_let_statement() {
    let input = r#"
    let x = 5;
    let y = 10;
    let foobar = 838383;
    "#
        .to_owned();

    let lexer = Lexer::new(input);
    let mut parser = Parser::new(lexer);

    match parser.parser_program() {
        Ok(p) => {
            assert_eq!(3, p.statements.len());
            for s in p.statements {
                assert_eq!("let".to_owned(), s.token_literal());
            }
        }
        Err(err) => panic!("{}", err.error_description()),
    };
}

#[test]
fn test_invalid_let_statement() {
    let input = r#"
    let x = 5;
    let = 10;
    let foobar = 838383;
    "#
        .to_owned();

    let lexer = Lexer::new(input);
    let mut parser = Parser::new(lexer);

    let program = parser.parser_program();
    assert!(program.is_err());
    assert_eq!(
        "expected next token to be Identifier, got Assign instead",
        program.err().unwrap().error_description()
    );
}

#[test]
fn test_return_statement() {
    let input = r#"
    return 5;
    return 10;
    return add(15);
    "#
        .to_owned();

    let lexer = Lexer::new(input);
    let mut parser = Parser::new(lexer);

    let program = parser.parser_program().unwrap();
    assert_eq!(3, program.statements.len());
    for s in program.statements {
        assert_eq!("return".to_owned(), s.token_literal());
    }
}

#[test]
fn empty_input_parses_to_empty_program() {
    let mut parser = Parser::new(Lexer::new("".to_owned()));
    let program = parser.parser_program().unwrap();
    assert_eq!(0, program.statements.len());
}

#[test]
fn missing_assign_reports_the_actual_kind() {
    let mut parser = Parser::new(Lexer::new("let x 5;".to_owned()));
    let err = parser.parser_program().err().unwrap();
    assert_eq!(
        "expected next token to be Assign, got IntegerLiteral instead",
        err.error_description()
    );
}

#[test]
fn statement_starting_token_is_rejected() {
    let mut parser = Parser::new(Lexer::new("+;".to_owned()));
    let err = parser.parser_program().err().unwrap();
    assert_eq!(
        "expected next token to be Plus, got Semicolon instead",
        err.error_description()
    );
}

#[test]
fn let_and_return_mix_keeps_source_order() {
    let input = "let a = 1; return a; let b = 2;".to_owned();
    let mut parser = Parser::new(Lexer::new(input));
    let program = parser.parser_program().unwrap();
    assert_eq!(3, program.statements.len());
    assert_eq!("let".to_owned(), program.statements[0].token_literal());
    assert_eq!("return".to_owned(), program.statements[1].token_literal());
    assert_eq!("let".to_owned(), program.statements[2].token_literal());
    assert_eq!("let".to_owned(), program.token_literal());
}

#[test]
fn statement_without_semicolon_stops_at_end_of_input() {
    let mut parser = Parser::new(Lexer::new("return 5".to_owned()));
    let program = parser.parser_program().unwrap();
    assert_eq!(1, program.statements.len());
    assert_eq!("return".to_owned(), program.statements[0].token_literal());
}

#[test]
fn parse_error_description_renders_its_kinds() {
    let err = ParseError::new(ParseErrorKind::UnexpectedToken(
        TokenType::Semicolon,
        TokenType::EndOfInput,
    ));
    assert_eq!(
        "expected next token to be Semicolon, got EndOfInput instead",
        err.error_description()
    );
}
