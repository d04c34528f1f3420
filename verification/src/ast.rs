//! The AST model: statement and expression nodes and their canonical textual
//! reconstruction.
//!
//! The node categories are closed sum types, so the parser and the
//! reconstruction logic can match exhaustively. Every node renders canonical
//! source text from itself alone; a `Program` renders as the concatenation of
//! its statements' renderings in order, with no added separators.

use vstd::prelude::*;

use crate::token::{Token, TokenType, TokenView};

verus! {

/// The mathematical content of an identifier node.
pub struct IdentifierView {
    pub token: TokenView,
    pub value: Seq<char>,
}

/// The mathematical content of an expression node.
pub enum ExpressionView {
    Identifier(IdentifierView),
}

/// The mathematical content of a `let` statement.
pub struct LetStatementView {
    pub token: TokenView,
    pub name: IdentifierView,
    pub value: Option<ExpressionView>,
}

/// The mathematical content of a `return` statement.
pub struct ReturnStatementView {
    pub token: TokenView,
}

/// The mathematical content of an expression statement.
pub struct ExpressionStatementView {
    pub token: TokenView,
    pub expression: Option<ExpressionView>,
}

/// The mathematical content of a statement node.
pub enum StatementView {
    Let(LetStatementView),
    Return(ReturnStatementView),
    Expression(ExpressionStatementView),
}

/// The canonical source text of an expression: an identifier renders as its
/// name text.
pub open spec fn spec_expression_text(e: ExpressionView) -> Seq<char> {
    match e {
        ExpressionView::Identifier(i) => i.value,
    }
}

/// The canonical source text of a `let` statement:
/// the `let` keyword, the bound name, `=`, the value (or nothing), `;`.
pub open spec fn spec_let_statement_text(v: LetStatementView) -> Seq<char> {
    v.token.literal + " "@ + v.name.value + " = "@ + (match v.value {
        Some(e) => spec_expression_text(e),
        None => Seq::<char>::empty(),
    }) + ";"@
}

/// The canonical source text of a `return` statement: the `return` keyword
/// followed by `;` (a return value expression is not represented yet).
pub open spec fn spec_return_statement_text(v: ReturnStatementView) -> Seq<char> {
    v.token.literal + ";"@
}

/// The canonical source text of an expression statement: the text of its inner
/// expression, or nothing.
pub open spec fn spec_expression_statement_text(v: ExpressionStatementView) -> Seq<char> {
    match v.expression {
        Some(e) => spec_expression_text(e),
        None => Seq::<char>::empty(),
    }
}

/// The canonical source text of a statement node.
pub open spec fn spec_statement_text(v: StatementView) -> Seq<char> {
    match v {
        StatementView::Let(s) => spec_let_statement_text(s),
        StatementView::Return(s) => spec_return_statement_text(s),
        StatementView::Expression(s) => spec_expression_statement_text(s),
    }
}

/// The literal text of the token that began a statement.
pub open spec fn spec_statement_token_literal(v: StatementView) -> Seq<char> {
    match v {
        StatementView::Let(s) => s.token.literal,
        StatementView::Return(s) => s.token.literal,
        StatementView::Expression(s) => s.token.literal,
    }
}

/// The canonical source text of a statement sequence: the concatenation of the
/// statements' texts in order.
pub open spec fn spec_program_text(stmts: Seq<StatementView>) -> Seq<char>
    decreases stmts.len(),
{
    if stmts.len() == 0 {
        Seq::<char>::empty()
    } else {
        spec_program_text(stmts.drop_last()) + spec_statement_text(stmts.last())
    }
}

/// The token literal a program reports: that of its first statement, or the
/// empty text when it has none.
pub open spec fn spec_program_token_literal(stmts: Seq<StatementView>) -> Seq<char> {
    if stmts.len() > 0 {
        spec_statement_token_literal(stmts[0])
    } else {
        Seq::<char>::empty()
    }
}

/// An identifier occurrence: its token and its name text.
pub struct Identifier {
    pub token: Token,
    pub value: String,
}

impl View for Identifier {
    type V = IdentifierView;

    open spec fn view(&self) -> IdentifierView {
        IdentifierView { token: self.token@, value: self.value@ }
    }
}

impl Identifier {
    pub fn new(token: Token, value: String) -> (r: Identifier)
        ensures
            r@ == (IdentifierView { token: token@, value: value@ }),
    {
        Identifier { token, value }
    }

    /// The literal text of this node's originating token.
    pub fn token_literal(&self) -> (r: String)
        ensures
            r@ == self@.token.literal,
    {
        self.token.literal.clone()
    }

    /// Canonical source reconstruction: the name text itself.
    pub fn to_string(&self) -> (r: String)
        ensures
            r@ == self@.value,
    {
        self.value.clone()
    }
}

/// An expression node.
pub enum Expression {
    Identifier(Identifier),
}

impl View for Expression {
    type V = ExpressionView;

    open spec fn view(&self) -> ExpressionView {
        match self {
            Expression::Identifier(i) => ExpressionView::Identifier(i@),
        }
    }
}

impl Expression {
    /// The literal text of this node's originating token.
    pub fn token_literal(&self) -> (r: String)
        ensures
            r@ == match self@ { ExpressionView::Identifier(i) => i.token.literal },
    {
        match self {
            Expression::Identifier(i) => i.token_literal(),
        }
    }

    /// Canonical source reconstruction of the expression.
    pub fn to_string(&self) -> (r: String)
        ensures
            r@ == spec_expression_text(self@),
    {
        match self {
            Expression::Identifier(i) => i.to_string(),
        }
    }
}

/// A `let` statement: its keyword token, the bound identifier, and the
/// optional value expression.
pub struct LetStatement {
    pub token: Token,
    pub name: Identifier,
    pub value: Option<Expression>,
}

impl View for LetStatement {
    type V = LetStatementView;

    open spec fn view(&self) -> LetStatementView {
        LetStatementView {
            token: self.token@,
            name: self.name@,
            value: match self.value {
                Some(e) => Some(e@),
                None => None,
            },
        }
    }
}

impl LetStatement {
    pub fn new(token: Token, name: Identifier, value: Option<Expression>) -> (r: LetStatement)
        ensures
            r@ == (LetStatementView {
                token: token@,
                name: name@,
                value: match value {
                    Some(e) => Some(e@),
                    None => None,
                },
            }),
    {
        LetStatement { token, name, value }
    }

    /// The literal text of this node's originating token.
    pub fn token_literal(&self) -> (r: String)
        ensures
            r@ == self@.token.literal,
    {
        self.token.literal.clone()
    }

    /// Canonical source reconstruction of the `let` statement.
    pub fn to_string(&self) -> (r: String)
        ensures
            r@ == spec_let_statement_text(self@),
    {
        let mut s = self.token_literal();
        s.append(" ");
        let name_text = self.name.to_string();
        s.append(name_text.as_str());
        s.append(" = ");
        if let Some(value) = &self.value {
            let value_text = value.to_string();
            s.append(value_text.as_str());
        }
        s.append(";");
        proof {
            assert(s@ =~= spec_let_statement_text(self@));
        }
        s
    }
}

/// A `return` statement: its keyword token. It carries no return value
/// expression yet.
pub struct ReturnStatement {
    pub token: Token,
}

impl View for ReturnStatement {
    type V = ReturnStatementView;

    open spec fn view(&self) -> ReturnStatementView {
        ReturnStatementView { token: self.token@ }
    }
}

impl ReturnStatement {
    /// The literal text of this node's originating token.
    pub fn token_literal(&self) -> (r: String)
        ensures
            r@ == self@.token.literal,
    {
        self.token.literal.clone()
    }

    /// Canonical source reconstruction of the `return` statement.
    pub fn to_string(&self) -> (r: String)
        ensures
            r@ == spec_return_statement_text(self@),
    {
        let mut s = self.token_literal();
        s.append(";");
        s
    }
}

/// A statement that consists of a single expression.
pub struct ExpressionStatement {
    pub token: Token,
    pub expression: Option<Expression>,
}

impl View for ExpressionStatement {
    type V = ExpressionStatementView;

    open spec fn view(&self) -> ExpressionStatementView {
        ExpressionStatementView {
            token: self.token@,
            expression: match self.expression {
                Some(e) => Some(e@),
                None => None,
            },
        }
    }
}

impl ExpressionStatement {
    /// The literal text of this node's originating token.
    pub fn token_literal(&self) -> (r: String)
        ensures
            r@ == self@.token.literal,
    {
        self.token.literal.clone()
    }

    /// Canonical source reconstruction: the inner expression's text, or
    /// nothing.
    pub fn to_string(&self) -> (r: String)
        ensures
            r@ == spec_expression_statement_text(self@),
    {
        match &self.expression {
            Some(expression) => expression.to_string(),
            None => String::new(),
        }
    }
}

/// A statement node.
pub enum Statement {
    Let(LetStatement),
    Return(ReturnStatement),
    Expression(ExpressionStatement),
}

impl View for Statement {
    type V = StatementView;

    open spec fn view(&self) -> StatementView {
        match self {
            Statement::Let(s) => StatementView::Let(s@),
            Statement::Return(s) => StatementView::Return(s@),
            Statement::Expression(s) => StatementView::Expression(s@),
        }
    }
}

impl Statement {
    /// The literal text of the token that began the statement.
    pub fn token_literal(&self) -> (r: String)
        ensures
            r@ == spec_statement_token_literal(self@),
    {
        match self {
            Statement::Let(s) => s.token_literal(),
            Statement::Return(s) => s.token_literal(),
            Statement::Expression(s) => s.token_literal(),
        }
    }

    /// Canonical source reconstruction of the statement.
    pub fn to_string(&self) -> (r: String)
        ensures
            r@ == spec_statement_text(self@),
    {
        match self {
            Statement::Let(s) => s.to_string(),
            Statement::Return(s) => s.to_string(),
            Statement::Expression(s) => s.to_string(),
        }
    }
}

/// An ordered sequence of statements: insertion order is source order, and the
/// program owns all of its statements.
pub struct Program {
    pub statements: Vec<Statement>,
}

impl View for Program {
    type V = Seq<StatementView>;

    open spec fn view(&self) -> Seq<StatementView> {
        self.statements@.map_values(|s: Statement| s@)
    }
}

impl Program {
    pub fn new(statements: Vec<Statement>) -> (p: Program)
        ensures
            p@ == statements@.map_values(|s: Statement| s@),
    {
        Program { statements }
    }

    /// The literal text of the first statement's token, or the empty text for
    /// an empty program.
    pub fn token_literal(&self) -> (r: String)
        ensures
            r@ == spec_program_token_literal(self@),
    {
        if self.statements.len() > 0 {
            self.statements[0].token_literal()
        } else {
            String::new()
        }
    }

    /// Canonical source reconstruction: the concatenation of the statements'
    /// texts in order, with no added separators.
    pub fn to_string(&self) -> (r: String)
        ensures
            r@ == spec_program_text(self@),
    {
        let mut s = String::new();
        let mut idx: usize = 0;
        while idx < self.statements.len()
            invariant
                idx <= self.statements.len(),
                s@ == spec_program_text(self@.take(idx as int)),
            decreases self.statements.len() - idx,
        {
            let text = self.statements[idx].to_string();
            s.append(text.as_str());
            idx = idx + 1;
            proof {
                assert(self@.take(idx as int).drop_last() =~= self@.take(idx as int - 1));
            }
        }
        proof {
            assert(self@.take(self.statements.len() as int) =~= self@);
        }
        s
    }
}

} // verus!
