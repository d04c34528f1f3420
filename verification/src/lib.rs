//! Front end of a small interpreted language: a character-level lexer and a
//! token-level recursive-descent parser that builds an abstract syntax tree.
//!
//! Source text flows through the [`lexer::Lexer`] into a stream of
//! [`token::Token`]s, which the [`parser::Parser`] assembles into an
//! [`ast::Program`] or rejects with a [`parser::ParseError`].

pub mod ast;
pub mod lexer;
pub mod parser;
pub mod token;
