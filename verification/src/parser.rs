//! The parser: consumes tokens from a lexer through one-token lookahead and
//! assembles AST nodes, validating the grammar and producing a structured
//! error on the first mismatch.
//!
//! The mathematical model reads the source text directly: [`spec_parse_program_from`]
//! parses statement by statement from a cursor, each token given by
//! [`spec_next_token`]. [`Parser::parser_program`] is proved to return exactly
//! its result: the statement sequence, or the first error.

use vstd::prelude::*;

use crate::ast::{
    Identifier, IdentifierView, LetStatement, LetStatementView, Program, ReturnStatement,
    ReturnStatementView, Statement, StatementView,
};
use crate::lexer::{lemma_next_token_bounds, spec_next_token, Lexer};
use crate::token::{spec_type_name, Token, TokenType, TokenView};

verus! {

/// What a grammar violation records: the kind the grammar expected next and
/// the kind that actually stood there.
#[derive(Clone, Copy, Debug, PartialEq, Eq, Structural)]
pub enum ParseErrorKind {
    UnexpectedToken(TokenType, TokenType),
}

/// The error `parser_program` stops at: exactly one kind in this grammar.
#[derive(Clone, Copy, Debug, PartialEq, Eq, Structural)]
pub struct ParseError {
    pub kind: ParseErrorKind,
}

/// The diagnostic text of an error:
/// `expected next token to be <expected>, got <actual> instead`.
pub open spec fn spec_error_description(kind: ParseErrorKind) -> Seq<char> {
    match kind {
        ParseErrorKind::UnexpectedToken(expected, got) => "expected next token to be "@
            + spec_type_name(expected) + ", got "@ + spec_type_name(got) + " instead"@,
    }
}

impl ParseError {
    pub fn new(kind: ParseErrorKind) -> (e: ParseError)
        ensures
            e.kind == kind,
    {
        ParseError { kind }
    }

    /// Render the binding diagnostic message for this error.
    pub fn error_description(&self) -> (r: String)
        ensures
            r@ == spec_error_description(self.kind),
    {
        match self.kind {
            ParseErrorKind::UnexpectedToken(expected, got) => {
                let mut s = String::from_str("expected next token to be ");
                let expected_name = expected.name();
                s.append(expected_name.as_str());
                s.append(", got ");
                let got_name = got.name();
                s.append(got_name.as_str());
                s.append(" instead");
                proof {
                    assert(s@ =~= spec_error_description(self.kind));
                }
                s
            },
        }
    }
}

/// The cursor of the first token at or after `pos` that is a `Semicolon` or
/// the end of the input: where the statement-tail skip stops.
pub open spec fn skip_to_semicolon(s: Seq<char>, pos: int) -> int
    decreases s.len() - pos
        when 0 <= pos <= s.len()
        via skip_to_semicolon_decreases
{
    let t = spec_next_token(s, pos);
    if t.0 == TokenType::Semicolon || t.0 == TokenType::EndOfInput {
        pos
    } else {
        skip_to_semicolon(s, t.2)
    }
}

#[via_fn]
proof fn skip_to_semicolon_decreases(s: Seq<char>, pos: int) {
    lemma_next_token_bounds(s, pos);
}

pub proof fn lemma_skip_to_semicolon_bounds(s: Seq<char>, pos: int)
    requires
        0 <= pos <= s.len(),
    ensures
        pos <= skip_to_semicolon(s, pos) <= s.len(),
        ({
            let k = spec_next_token(s, skip_to_semicolon(s, pos)).0;
            k == TokenType::Semicolon || k == TokenType::EndOfInput
        }),
    decreases s.len() - pos,
{
    lemma_next_token_bounds(s, pos);
    let t = spec_next_token(s, pos);
    if !(t.0 == TokenType::Semicolon || t.0 == TokenType::EndOfInput) {
        lemma_skip_to_semicolon_bounds(s, t.2);
    }
}

/// Parse a `let` statement whose `let` keyword is the token at `pos`: the next
/// token must be an identifier, the one after it must be `=`, and the
/// remaining tokens up to the terminating `;` (or the end of the input) are
/// consumed without being represented — a placeholder until value-expression
/// parsing exists. On success, the result cursor is the one
/// of the stopping token.
pub open spec fn spec_parse_let(s: Seq<char>, pos: int) -> Result<
    (StatementView, int),
    ParseError,
> {
    let t0 = spec_next_token(s, pos);
    let t1 = spec_next_token(s, t0.2);
    if t1.0 != TokenType::Identifier {
        Err(ParseError { kind: ParseErrorKind::UnexpectedToken(TokenType::Identifier, t1.0) })
    } else {
        let t2 = spec_next_token(s, t1.2);
        if t2.0 != TokenType::Assign {
            Err(ParseError { kind: ParseErrorKind::UnexpectedToken(TokenType::Assign, t2.0) })
        } else {
            Ok(
                (
                    StatementView::Let(
                        LetStatementView {
                            token: TokenView { token_type: t0.0, literal: t0.1 },
                            name: IdentifierView {
                                token: TokenView { token_type: t1.0, literal: t1.1 },
                                value: t1.1,
                            },
                            value: None,
                        },
                    ),
                    skip_to_semicolon(s, t1.2),
                ),
            )
        }
    }
}

/// Parse a `return` statement whose `return` keyword is the token at `pos`:
/// the tokens after the keyword up to the terminating `;` (or the end of the
/// input) are consumed without being represented. It never fails.
pub open spec fn spec_parse_return(s: Seq<char>, pos: int) -> (StatementView, int) {
    let t0 = spec_next_token(s, pos);
    (
        StatementView::Return(
            ReturnStatementView { token: TokenView { token_type: t0.0, literal: t0.1 } },
        ),
        skip_to_semicolon(s, t0.2),
    )
}

/// Parse one statement beginning at the token at `pos`: dispatch on that
/// token's kind. A token that can begin no statement is the error case, which
/// records the two kinds the diagnostics render: the current kind and the
/// lookahead kind.
pub open spec fn spec_parse_statement(s: Seq<char>, pos: int) -> Result<
    (StatementView, int),
    ParseError,
> {
    let t0 = spec_next_token(s, pos);
    if t0.0 == TokenType::Let {
        spec_parse_let(s, pos)
    } else if t0.0 == TokenType::Return {
        Ok(spec_parse_return(s, pos))
    } else {
        Err(
            ParseError {
                kind: ParseErrorKind::UnexpectedToken(t0.0, spec_next_token(s, t0.2).0),
            },
        )
    }
}

/// Parsing one statement moves the cursor strictly forward and not past the
/// end.
pub proof fn lemma_parse_statement_bounds(s: Seq<char>, pos: int)
    requires
        0 <= pos <= s.len(),
        spec_next_token(s, pos).0 != TokenType::EndOfInput,
    ensures
        match spec_parse_statement(s, pos) {
            Ok((st, q)) => pos <= q <= s.len() && pos < spec_next_token(s, q).2 <= s.len(),
            Err(e) => true,
        },
{
    lemma_next_token_bounds(s, pos);
    let t0 = spec_next_token(s, pos);
    if t0.0 == TokenType::Let {
        lemma_next_token_bounds(s, t0.2);
        let t1 = spec_next_token(s, t0.2);
        if t1.0 == TokenType::Identifier {
            lemma_next_token_bounds(s, t1.2);
            lemma_skip_to_semicolon_bounds(s, t1.2);
            lemma_next_token_bounds(s, skip_to_semicolon(s, t1.2));
        }
    } else if t0.0 == TokenType::Return {
        lemma_skip_to_semicolon_bounds(s, t0.2);
        lemma_next_token_bounds(s, skip_to_semicolon(s, t0.2));
    }
}

/// Parse the whole token stream from `pos`: loop while the current token is
/// not `EndOfInput`, parse one statement, step past its stopping token, and
/// collect the statements in source order. The first grammar violation aborts
/// the parse: no partial program is salvaged.
pub open spec fn spec_parse_program_from(s: Seq<char>, pos: int) -> Result<
    Seq<StatementView>,
    ParseError,
>
    decreases s.len() - pos
        when 0 <= pos <= s.len()
        via spec_parse_program_from_decreases
{
    if spec_next_token(s, pos).0 == TokenType::EndOfInput {
        Ok(Seq::<StatementView>::empty())
    } else {
        match spec_parse_statement(s, pos) {
            Err(e) => Err(e),
            Ok((st, q)) => match spec_parse_program_from(s, spec_next_token(s, q).2) {
                Err(e) => Err(e),
                Ok(rest) => Ok(seq![st] + rest),
            },
        }
    }
}

#[via_fn]
proof fn spec_parse_program_from_decreases(s: Seq<char>, pos: int) {
    if 0 <= pos <= s.len() && spec_next_token(s, pos).0 != TokenType::EndOfInput {
        lemma_parse_statement_bounds(s, pos);
    }
}

/// Parse a complete source text from its beginning.
pub open spec fn spec_parse_program(s: Seq<char>) -> Result<Seq<StatementView>, ParseError> {
    spec_parse_program_from(s, 0)
}

/// Every statement of a successfully parsed program reports its own keyword
/// as its token literal: a `let` statement the text `let` with an
/// identifier-kind name token, a `return` statement the text `return`; no
/// other statement form is produced by this grammar.
pub proof fn lemma_program_statement_literals(s: Seq<char>, pos: int)
    requires
        0 <= pos <= s.len(),
    ensures
        match spec_parse_program_from(s, pos) {
            Ok(stmts) => forall|j: int|
                0 <= j < stmts.len() ==> match #[trigger] stmts[j] {
                    StatementView::Let(st) => {
                        &&& st.token.token_type == TokenType::Let
                        &&& st.token.literal == "let"@
                        &&& st.name.token.token_type == TokenType::Identifier
                    },
                    StatementView::Return(st) => {
                        &&& st.token.token_type == TokenType::Return
                        &&& st.token.literal == "return"@
                    },
                    StatementView::Expression(st) => false,
                },
            Err(e) => true,
        },
    decreases s.len() - pos,
{
    if spec_next_token(s, pos).0 != TokenType::EndOfInput {
        lemma_parse_statement_bounds(s, pos);
        if let Ok((st, q)) = spec_parse_statement(s, pos) {
            crate::lexer::lemma_token_literal_fixed(s, pos);
            lemma_program_statement_literals(s, spec_next_token(s, q).2);
        }
    }
}

/// Parser state: a lexer plus the current and next ("peek") tokens, enabling
/// one-token lookahead. `pos` is the ghost cursor of the current token in the
/// source text.
pub struct Parser {
    pub lexer: Lexer,
    pub current_token: Token,
    pub peek_token: Token,
    pub pos: Ghost<int>,
}

impl Parser {
    /// Well-formed parser state: the current token is the one at the ghost
    /// cursor, the peek token is the one after it, and the lexer stands just
    /// past the peek token.
    pub open spec fn wf(self) -> bool {
        let s = self.lexer.input@;
        let t0 = spec_next_token(s, self.pos@);
        let t1 = spec_next_token(s, t0.2);
        &&& self.lexer.wf()
        &&& 0 <= self.pos@ <= s.len()
        &&& self.current_token.token_type == t0.0
        &&& self.current_token.literal@ == t0.1
        &&& self.peek_token.token_type == t1.0
        &&& self.peek_token.literal@ == t1.1
        &&& self.lexer.position as int == t1.2
    }

    /// Take ownership of a lexer and draw the first two tokens, so that both
    /// the current and the peek token stand ready before any parse call.
    pub fn new(lexer: Lexer) -> (p: Parser)
        requires
            lexer.wf(),
        ensures
            p.wf(),
            p.lexer.input@ == lexer.input@,
            p.pos@ == lexer.position as int,
    {
        let ghost pos0 = lexer.position as int;
        let mut l = lexer;
        proof {
            lemma_next_token_bounds(l.input@, pos0);
        }
        let current_token = l.next_token();
        let peek_token = l.next_token();
        Parser { lexer: l, current_token, peek_token, pos: Ghost(pos0) }
    }

    /// Advance both tokens together: the peek token becomes current and the
    /// lexer supplies a fresh peek token.
    fn next_token(&mut self)
        requires
            old(self).wf(),
        ensures
            final(self).wf(),
            final(self).lexer.input@ == old(self).lexer.input@,
            final(self).pos@ == spec_next_token(old(self).lexer.input@, old(self).pos@).2,
            final(self).current_token == old(self).peek_token,
    {
        proof {
            lemma_next_token_bounds(self.lexer.input@, self.pos@);
            lemma_next_token_bounds(
                self.lexer.input@,
                spec_next_token(self.lexer.input@, self.pos@).2,
            );
        }
        self.current_token = self.peek_token.clone();
        self.peek_token = self.lexer.next_token();
        self.pos = Ghost(spec_next_token(self.lexer.input@, self.pos@).2);
    }

    /// Whether the current token has the given kind.
    fn current_token_is(&self, token_type: TokenType) -> (r: bool)
        ensures
            r == (self.current_token.token_type == token_type),
    {
        self.current_token.token_type == token_type
    }

    /// Whether the peek token has the given kind.
    fn peek_token_is(&self, token_type: TokenType) -> (r: bool)
        ensures
            r == (self.peek_token.token_type == token_type),
    {
        self.peek_token.token_type == token_type
    }

    /// The core precondition check of every grammar rule: when the lookahead
    /// token has the expected kind, advance and succeed; otherwise fail with
    /// an `UnexpectedToken` error carrying the expected kind and the actual
    /// lookahead kind, and change nothing.
    fn expect_peek(&mut self, token_type: TokenType) -> (r: Result<(), ParseError>)
        requires
            old(self).wf(),
        ensures
            final(self).wf(),
            final(self).lexer.input@ == old(self).lexer.input@,
            ({
                let s = old(self).lexer.input@;
                let p1 = spec_next_token(s, old(self).pos@).2;
                if spec_next_token(s, p1).0 == token_type {
                    &&& r is Ok
                    &&& final(self).pos@ == p1
                } else {
                    &&& r == Err::<(), ParseError>(
                        ParseError {
                            kind: ParseErrorKind::UnexpectedToken(
                                token_type,
                                spec_next_token(s, p1).0,
                            ),
                        },
                    )
                    &&& *final(self) == *old(self)
                }
            }),
    {
        if self.peek_token_is(token_type) {
            self.next_token();
            Ok(())
        } else {
            Err(ParseError::new(ParseErrorKind::UnexpectedToken(token_type, self.peek_token.token_type)))
        }
    }

    /// Parse a `let` statement standing at the current token. The statement's
    /// value expression is not represented: the tokens after `=` are skipped
    /// up to and including the terminating `;` (or the end of the input).
    fn parse_let_statement(&mut self) -> (r: Result<LetStatement, ParseError>)
        requires
            old(self).wf(),
        ensures
            final(self).wf(),
            final(self).lexer.input@ == old(self).lexer.input@,
            ({
                let s = old(self).lexer.input@;
                match spec_parse_let(s, old(self).pos@) {
                    Ok((st, q)) => {
                        &&& r matches Ok(stmt) && StatementView::Let(stmt@) == st
                        &&& final(self).pos@ == q
                    },
                    Err(e) => r == Err::<LetStatement, ParseError>(e),
                }
            }),
    {
        let ghost s = self.lexer.input@;
        let token = self.current_token.clone();

        if let Err(e) = self.expect_peek(TokenType::Identifier) {
            return Err(e);
        }

        let name = Identifier::new(self.current_token.clone(), self.current_token.literal.clone());
        let statement = LetStatement { token, name, value: None };

        if let Err(e) = self.expect_peek(TokenType::Assign) {
            return Err(e);
        }

        let ghost p2 = self.pos@;
        while !self.current_token_is(TokenType::Semicolon) && !self.current_token_is(
            TokenType::EndOfInput,
        )
            invariant
                self.wf(),
                self.lexer.input@ == s,
                0 <= p2 <= s.len(),
                skip_to_semicolon(s, self.pos@) == skip_to_semicolon(s, p2),
            decreases s.len() - self.pos@,
        {
            proof {
                lemma_next_token_bounds(s, self.pos@);
            }
            self.next_token();
        }
        Ok(statement)
    }

    /// Parse a `return` statement standing at the current token. The return
    /// value is not represented: the tokens after the keyword are skipped up
    /// to and including the terminating `;` (or the end of the input).
    fn parse_return_statement(&mut self) -> (r: Result<ReturnStatement, ParseError>)
        requires
            old(self).wf(),
        ensures
            final(self).wf(),
            final(self).lexer.input@ == old(self).lexer.input@,
            ({
                let s = old(self).lexer.input@;
                let (st, q) = spec_parse_return(s, old(self).pos@);
                &&& r matches Ok(stmt) && StatementView::Return(stmt@) == st
                &&& final(self).pos@ == q
            }),
    {
        let ghost s = self.lexer.input@;
        let statement = ReturnStatement { token: self.current_token.clone() };

        self.next_token();

        let ghost p1 = self.pos@;
        while !self.current_token_is(TokenType::Semicolon) && !self.current_token_is(
            TokenType::EndOfInput,
        )
            invariant
                self.wf(),
                self.lexer.input@ == s,
                0 <= p1 <= s.len(),
                skip_to_semicolon(s, self.pos@) == skip_to_semicolon(s, p1),
            decreases s.len() - self.pos@,
        {
            proof {
                lemma_next_token_bounds(s, self.pos@);
            }
            self.next_token();
        }
        Ok(statement)
    }

    /// Parse one statement by dispatching on the current token's kind; any
    /// other kind can begin no statement and is the error case.
    fn parse_statement(&mut self) -> (r: Result<Statement, ParseError>)
        requires
            old(self).wf(),
        ensures
            final(self).wf(),
            final(self).lexer.input@ == old(self).lexer.input@,
            ({
                let s = old(self).lexer.input@;
                match spec_parse_statement(s, old(self).pos@) {
                    Ok((st, q)) => {
                        &&& r matches Ok(stmt) && stmt@ == st
                        &&& final(self).pos@ == q
                    },
                    Err(e) => r == Err::<Statement, ParseError>(e),
                }
            }),
    {
        match self.current_token.token_type {
            TokenType::Let => {
                match self.parse_let_statement() {
                    Ok(let_statement) => Ok(Statement::Let(let_statement)),
                    Err(e) => Err(e),
                }
            },
            TokenType::Return => {
                match self.parse_return_statement() {
                    Ok(return_statement) => Ok(Statement::Return(return_statement)),
                    Err(e) => Err(e),
                }
            },
            _ => {
                Err(
                    ParseError::new(
                        ParseErrorKind::UnexpectedToken(
                            self.current_token.token_type,
                            self.peek_token.token_type,
                        ),
                    ),
                )
            },
        }
    }

    /// Consume the entire token stream and return either the fully populated
    /// program or the first encountered error — no error recovery, no partial
    /// program.
    pub fn parser_program(&mut self) -> (r: Result<Program, ParseError>)
        requires
            old(self).wf(),
        ensures
            final(self).wf(),
            final(self).lexer.input@ == old(self).lexer.input@,
            r is Ok ==> spec_next_token(old(self).lexer.input@, final(self).pos@).0
                == TokenType::EndOfInput,
            ({
                let s = old(self).lexer.input@;
                match spec_parse_program_from(s, old(self).pos@) {
                    Ok(stmts) => r matches Ok(p) && p@ == stmts,
                    Err(e) => r == Err::<Program, ParseError>(e),
                }
            }),
    {
        let ghost s = self.lexer.input@;
        let ghost pos0 = self.pos@;
        let statements: Vec<Statement> = Vec::new();
        let mut program = Program::new(statements);

        proof {
            assert(program@ =~= Seq::<StatementView>::empty());
        }

        while !self.current_token_is(TokenType::EndOfInput)
            invariant
                self.wf(),
                self.lexer.input@ == s,
                s == old(self).lexer.input@,
                pos0 == old(self).pos@,
                0 <= pos0 <= s.len(),
                match spec_parse_program_from(s, self.pos@) {
                    Ok(rest) => spec_parse_program_from(s, pos0) == Ok::<
                        Seq<StatementView>,
                        ParseError,
                    >(program@ + rest),
                    Err(e) => spec_parse_program_from(s, pos0) == Err::<
                        Seq<StatementView>,
                        ParseError,
                    >(e),
                },
            decreases s.len() - self.pos@,
        {
            proof {
                lemma_parse_statement_bounds(s, self.pos@);
            }
            let ghost it_pos = self.pos@;
            let ghost prog_before = program@;
            let statement = match self.parse_statement() {
                Ok(statement) => statement,
                Err(e) => {
                    return Err(e);
                },
            };
            program.statements.push(statement);
            proof {
                assert(program@ =~= prog_before.push(statement@));
            }
            self.next_token();
            proof {
                if let Ok(rest) = spec_parse_program_from(s, self.pos@) {
                    assert(prog_before + (seq![statement@] + rest) =~= program@ + rest);
                }
            }
        }
        proof {
            assert(program@ + Seq::<StatementView>::empty() =~= program@);
        }
        Ok(program)
    }
}

} // verus!
