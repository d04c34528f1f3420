//! The token model: the closed set of lexical categories and the literal text
//! captured for each occurrence.

use vstd::prelude::*;

verus! {

/// The closed set of lexical categories of the language.
#[derive(Clone, Copy, Debug, PartialEq, Eq, Structural)]
pub enum TokenType {
    Illegal,
    EndOfInput,
    Identifier,
    IntegerLiteral,
    Assign,
    Plus,
    Minus,
    Bang,
    Asterisk,
    Slash,
    LessThan,
    GreaterThan,
    Equal,
    NotEqual,
    Comma,
    Semicolon,
    LParen,
    RParen,
    LBrace,
    RBrace,
    Function,
    Let,
    True,
    False,
    If,
    Else,
    Return,
}

/// The error returned when a text is the fixed literal of no token kind.
#[derive(Clone, Copy, Debug, PartialEq, Eq, Structural)]
pub struct ParseTokenError;

/// The one ordered keyword mapping: both literal-to-kind conversion and the
/// keyword-membership test of identifier classification consult it.
pub open spec fn spec_keyword_kind(s: Seq<char>) -> Option<TokenType> {
    if s == "fn"@ {
        Some(TokenType::Function)
    } else if s == "let"@ {
        Some(TokenType::Let)
    } else if s == "if"@ {
        Some(TokenType::If)
    } else if s == "return"@ {
        Some(TokenType::Return)
    } else if s == "true"@ {
        Some(TokenType::True)
    } else if s == "false"@ {
        Some(TokenType::False)
    } else if s == "else"@ {
        Some(TokenType::Else)
    } else {
        None
    }
}

/// Classification of a scanned identifier text: a keyword text maps to its
/// keyword kind, every other text is an ordinary identifier.
pub open spec fn spec_lookup_ident(s: Seq<char>) -> TokenType {
    match spec_keyword_kind(s) {
        Some(k) => k,
        None => TokenType::Identifier,
    }
}

/// The operator and delimiter texts and their kinds.
pub open spec fn spec_symbol_kind(s: Seq<char>) -> Option<TokenType> {
    if s == "="@ {
        Some(TokenType::Assign)
    } else if s == "+"@ {
        Some(TokenType::Plus)
    } else if s == "-"@ {
        Some(TokenType::Minus)
    } else if s == "!"@ {
        Some(TokenType::Bang)
    } else if s == "*"@ {
        Some(TokenType::Asterisk)
    } else if s == "/"@ {
        Some(TokenType::Slash)
    } else if s == "<"@ {
        Some(TokenType::LessThan)
    } else if s == ">"@ {
        Some(TokenType::GreaterThan)
    } else if s == ","@ {
        Some(TokenType::Comma)
    } else if s == ";"@ {
        Some(TokenType::Semicolon)
    } else if s == "("@ {
        Some(TokenType::LParen)
    } else if s == ")"@ {
        Some(TokenType::RParen)
    } else if s == "{"@ {
        Some(TokenType::LBrace)
    } else if s == "}"@ {
        Some(TokenType::RBrace)
    } else if s == "=="@ {
        Some(TokenType::Equal)
    } else if s == "!="@ {
        Some(TokenType::NotEqual)
    } else {
        None
    }
}

/// The kind whose fixed literal a text is: a symbol, a keyword, or none.
pub open spec fn spec_token_type_of(s: Seq<char>) -> Option<TokenType> {
    match spec_symbol_kind(s) {
        Some(k) => Some(k),
        None => spec_keyword_kind(s),
    }
}

/// Whether every occurrence of a kind carries one fixed literal text: true of
/// every kind but `Identifier`, `IntegerLiteral` and `Illegal`, whose literals
/// vary with the occurrence.
pub open spec fn is_fixed_literal_kind(t: TokenType) -> bool {
    !(t == TokenType::Identifier || t == TokenType::IntegerLiteral || t == TokenType::Illegal)
}

/// The fixed literal text defined by a kind, for the kinds that have one;
/// `EndOfInput` carries the empty text.
pub open spec fn spec_fixed_literal(t: TokenType) -> Seq<char>
    recommends
        is_fixed_literal_kind(t),
{
    match t {
        TokenType::Illegal => Seq::<char>::empty(),
        TokenType::EndOfInput => Seq::<char>::empty(),
        TokenType::Identifier => Seq::<char>::empty(),
        TokenType::IntegerLiteral => Seq::<char>::empty(),
        TokenType::Assign => "="@,
        TokenType::Plus => "+"@,
        TokenType::Minus => "-"@,
        TokenType::Bang => "!"@,
        TokenType::Asterisk => "*"@,
        TokenType::Slash => "/"@,
        TokenType::LessThan => "<"@,
        TokenType::GreaterThan => ">"@,
        TokenType::Equal => "=="@,
        TokenType::NotEqual => "!="@,
        TokenType::Comma => ","@,
        TokenType::Semicolon => ";"@,
        TokenType::LParen => "("@,
        TokenType::RParen => ")"@,
        TokenType::LBrace => "{"@,
        TokenType::RBrace => "}"@,
        TokenType::Function => "fn"@,
        TokenType::Let => "let"@,
        TokenType::True => "true"@,
        TokenType::False => "false"@,
        TokenType::If => "if"@,
        TokenType::Else => "else"@,
        TokenType::Return => "return"@,
    }
}

/// The name of a token kind, as diagnostics print it.
pub open spec fn spec_type_name(t: TokenType) -> Seq<char> {
    match t {
        TokenType::Illegal => "Illegal"@,
        TokenType::EndOfInput => "EndOfInput"@,
        TokenType::Identifier => "Identifier"@,
        TokenType::IntegerLiteral => "IntegerLiteral"@,
        TokenType::Assign => "Assign"@,
        TokenType::Plus => "Plus"@,
        TokenType::Minus => "Minus"@,
        TokenType::Bang => "Bang"@,
        TokenType::Asterisk => "Asterisk"@,
        TokenType::Slash => "Slash"@,
        TokenType::LessThan => "LessThan"@,
        TokenType::GreaterThan => "GreaterThan"@,
        TokenType::Equal => "Equal"@,
        TokenType::NotEqual => "NotEqual"@,
        TokenType::Comma => "Comma"@,
        TokenType::Semicolon => "Semicolon"@,
        TokenType::LParen => "LParen"@,
        TokenType::RParen => "RParen"@,
        TokenType::LBrace => "LBrace"@,
        TokenType::RBrace => "RBrace"@,
        TokenType::Function => "Function"@,
        TokenType::Let => "Let"@,
        TokenType::True => "True"@,
        TokenType::False => "False"@,
        TokenType::If => "If"@,
        TokenType::Else => "Else"@,
        TokenType::Return => "Return"@,
    }
}

impl TokenType {
    /// Classify a scanned identifier text: a keyword kind for one of the fixed
    /// keyword texts, `Identifier` for everything else.
    pub fn lookup_indent(indent: &String) -> (t: TokenType)
        ensures
            t == spec_lookup_ident(indent@),
    {
        match Self::keyword_kind(indent.as_str()) {
            Some(t) => t,
            None => TokenType::Identifier,
        }
    }

    /// The keyword kind of a text, if the text is one of the keyword texts.
    fn keyword_kind(s: &str) -> (t: Option<TokenType>)
        ensures
            t == spec_keyword_kind(s@),
    {
        let o = s.to_owned();
        if o == String::from_str("fn") {
            Some(TokenType::Function)
        } else if o == String::from_str("let") {
            Some(TokenType::Let)
        } else if o == String::from_str("if") {
            Some(TokenType::If)
        } else if o == String::from_str("return") {
            Some(TokenType::Return)
        } else if o == String::from_str("true") {
            Some(TokenType::True)
        } else if o == String::from_str("false") {
            Some(TokenType::False)
        } else if o == String::from_str("else") {
            Some(TokenType::Else)
        } else {
            None
        }
    }

    /// The kind whose fixed literal `s` is, or an error when there is none.
    pub fn from_literal(s: &str) -> (r: Result<TokenType, ParseTokenError>)
        ensures
            r == match spec_token_type_of(s@) {
                Some(k) => Ok::<TokenType, ParseTokenError>(k),
                None => Err::<TokenType, ParseTokenError>(ParseTokenError),
            },
    {
        let o = s.to_owned();
        if o == String::from_str("=") {
            Ok(TokenType::Assign)
        } else if o == String::from_str("+") {
            Ok(TokenType::Plus)
        } else if o == String::from_str("-") {
            Ok(TokenType::Minus)
        } else if o == String::from_str("!") {
            Ok(TokenType::Bang)
        } else if o == String::from_str("*") {
            Ok(TokenType::Asterisk)
        } else if o == String::from_str("/") {
            Ok(TokenType::Slash)
        } else if o == String::from_str("<") {
            Ok(TokenType::LessThan)
        } else if o == String::from_str(">") {
            Ok(TokenType::GreaterThan)
        } else if o == String::from_str(",") {
            Ok(TokenType::Comma)
        } else if o == String::from_str(";") {
            Ok(TokenType::Semicolon)
        } else if o == String::from_str("(") {
            Ok(TokenType::LParen)
        } else if o == String::from_str(")") {
            Ok(TokenType::RParen)
        } else if o == String::from_str("{") {
            Ok(TokenType::LBrace)
        } else if o == String::from_str("}") {
            Ok(TokenType::RBrace)
        } else if o == String::from_str("==") {
            Ok(TokenType::Equal)
        } else if o == String::from_str("!=") {
            Ok(TokenType::NotEqual)
        } else {
            match Self::keyword_kind(s) {
                Some(k) => Ok(k),
                None => Err(ParseTokenError),
            }
        }
    }

    /// The kind's name, as the parser's diagnostics print it.
    pub fn name(&self) -> (r: String)
        ensures
            r@ == spec_type_name(*self),
    {
        match self {
            TokenType::Illegal => String::from_str("Illegal"),
            TokenType::EndOfInput => String::from_str("EndOfInput"),
            TokenType::Identifier => String::from_str("Identifier"),
            TokenType::IntegerLiteral => String::from_str("IntegerLiteral"),
            TokenType::Assign => String::from_str("Assign"),
            TokenType::Plus => String::from_str("Plus"),
            TokenType::Minus => String::from_str("Minus"),
            TokenType::Bang => String::from_str("Bang"),
            TokenType::Asterisk => String::from_str("Asterisk"),
            TokenType::Slash => String::from_str("Slash"),
            TokenType::LessThan => String::from_str("LessThan"),
            TokenType::GreaterThan => String::from_str("GreaterThan"),
            TokenType::Equal => String::from_str("Equal"),
            TokenType::NotEqual => String::from_str("NotEqual"),
            TokenType::Comma => String::from_str("Comma"),
            TokenType::Semicolon => String::from_str("Semicolon"),
            TokenType::LParen => String::from_str("LParen"),
            TokenType::RParen => String::from_str("RParen"),
            TokenType::LBrace => String::from_str("LBrace"),
            TokenType::RBrace => String::from_str("RBrace"),
            TokenType::Function => String::from_str("Function"),
            TokenType::Let => String::from_str("Let"),
            TokenType::True => String::from_str("True"),
            TokenType::False => String::from_str("False"),
            TokenType::If => String::from_str("If"),
            TokenType::Else => String::from_str("Else"),
            TokenType::Return => String::from_str("Return"),
        }
    }
}

impl core::str::FromStr for TokenType {
    type Err = ParseTokenError;

    fn from_str(s: &str) -> Result<TokenType, ParseTokenError> {
        TokenType::from_literal(s)
    }
}

/// The mathematical content of a token: its kind and the text it captured.
pub struct TokenView {
    pub token_type: TokenType,
    pub literal: Seq<char>,
}

/// A lexical unit: a kind together with the literal text of its occurrence.
#[derive(Debug)]
pub struct Token {
    pub token_type: TokenType,
    pub literal: String,
}

impl View for Token {
    type V = TokenView;

    open spec fn view(&self) -> TokenView {
        TokenView { token_type: self.token_type, literal: self.literal@ }
    }
}

impl Token {
    pub fn new(token_type: TokenType, literal: String) -> (t: Token)
        ensures
            t@ == (TokenView { token_type, literal: literal@ }),
    {
        Token { token_type, literal }
    }
}

impl Clone for Token {
    fn clone(&self) -> (t: Token)
        ensures
            t == *self,
    {
        Token { token_type: self.token_type, literal: self.literal.clone() }
    }
}

} // verus!
