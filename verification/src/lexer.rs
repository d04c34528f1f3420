//! The lexer: converts raw source text into a sequence of tokens, one
//! character scan at a time.
//!
//! The mathematical model is [`spec_next_token`]: from a source text and a
//! cursor it gives the kind, the literal text and the end position of the next
//! token. [`Lexer::next_token`] is proved to return exactly that token.

use vstd::prelude::*;

use crate::token::{is_fixed_literal_kind, spec_fixed_literal, spec_lookup_ident, Token, TokenType};

verus! {

/// The whitespace characters skipped before every token.
pub open spec fn is_whitespace_char(c: char) -> bool {
    c == ' ' || c == '\t' || c == '\n' || c == '\r'
}

/// The characters that may make up an identifier: letters and underscore.
pub open spec fn is_letter_char(c: char) -> bool {
    ('a' <= c && c <= 'z') || ('A' <= c && c <= 'Z') || c == '_'
}

/// The decimal digits.
pub open spec fn is_digit_char(c: char) -> bool {
    '0' <= c && c <= '9'
}

/// The single-character operators and delimiters that need no lookahead.
pub open spec fn is_symbol_char(c: char) -> bool {
    ||| c == '+'
    ||| c == '-'
    ||| c == ';'
    ||| c == '('
    ||| c == ')'
    ||| c == ','
    ||| c == '{'
    ||| c == '}'
    ||| c == '/'
    ||| c == '*'
    ||| c == '<'
    ||| c == '>'
}

/// The kind of a single-character operator or delimiter.
pub open spec fn spec_symbol_char_kind(c: char) -> TokenType {
    if c == '+' {
        TokenType::Plus
    } else if c == '-' {
        TokenType::Minus
    } else if c == ';' {
        TokenType::Semicolon
    } else if c == '(' {
        TokenType::LParen
    } else if c == ')' {
        TokenType::RParen
    } else if c == ',' {
        TokenType::Comma
    } else if c == '{' {
        TokenType::LBrace
    } else if c == '}' {
        TokenType::RBrace
    } else if c == '/' {
        TokenType::Slash
    } else if c == '*' {
        TokenType::Asterisk
    } else if c == '<' {
        TokenType::LessThan
    } else {
        TokenType::GreaterThan
    }
}

/// The first position at or after `i` that holds no whitespace, or the end of
/// the text.
pub open spec fn skip_ws_from(s: Seq<char>, i: int) -> int
    decreases s.len() - i
        when 0 <= i <= s.len()
{
    if i < s.len() && is_whitespace_char(s[i]) {
        skip_ws_from(s, i + 1)
    } else {
        i
    }
}

/// The end of the run of identifier characters starting at `i`.
pub open spec fn scan_letters(s: Seq<char>, i: int) -> int
    decreases s.len() - i
        when 0 <= i <= s.len()
{
    if i < s.len() && is_letter_char(s[i]) {
        scan_letters(s, i + 1)
    } else {
        i
    }
}

/// The end of the run of decimal digits starting at `i`.
pub open spec fn scan_digits(s: Seq<char>, i: int) -> int
    decreases s.len() - i
        when 0 <= i <= s.len()
{
    if i < s.len() && is_digit_char(s[i]) {
        scan_digits(s, i + 1)
    } else {
        i
    }
}

/// The token starting exactly at `i`, a position that holds a character and no
/// whitespace: its kind, its literal text, and the position just past it.
pub open spec fn spec_token_at(s: Seq<char>, i: int) -> (TokenType, Seq<char>, int)
    recommends
        0 <= i < s.len(),
        !is_whitespace_char(s[i]),
{
    let c = s[i];
    if c == '=' || c == '!' {
        if i + 1 < s.len() && s[i + 1] == '=' {
            (
                if c == '=' {
                    TokenType::Equal
                } else {
                    TokenType::NotEqual
                },
                s.subrange(i, i + 2),
                i + 2,
            )
        } else {
            (
                if c == '=' {
                    TokenType::Assign
                } else {
                    TokenType::Bang
                },
                s.subrange(i, i + 1),
                i + 1,
            )
        }
    } else if is_symbol_char(c) {
        (spec_symbol_char_kind(c), s.subrange(i, i + 1), i + 1)
    } else if is_letter_char(c) {
        let j = scan_letters(s, i);
        (spec_lookup_ident(s.subrange(i, j)), s.subrange(i, j), j)
    } else if is_digit_char(c) {
        let j = scan_digits(s, i);
        (TokenType::IntegerLiteral, s.subrange(i, j), j)
    } else {
        (TokenType::Illegal, s.subrange(i, i + 1), i + 1)
    }
}

/// The next token of `s` read from position `pos`: whitespace is skipped, the
/// end of the text yields `EndOfInput` with an empty literal. The triple gives
/// the kind, the literal text, and the position of the cursor after the token.
pub open spec fn spec_next_token(s: Seq<char>, pos: int) -> (TokenType, Seq<char>, int) {
    let i = skip_ws_from(s, pos);
    if i >= s.len() {
        (TokenType::EndOfInput, Seq::<char>::empty(), s.len() as int)
    } else {
        spec_token_at(s, i)
    }
}

pub proof fn lemma_skip_ws_from_bounds(s: Seq<char>, i: int)
    requires
        0 <= i <= s.len(),
    ensures
        i <= skip_ws_from(s, i) <= s.len(),
        skip_ws_from(s, i) < s.len() ==> !is_whitespace_char(s[skip_ws_from(s, i)]),
    decreases s.len() - i,
{
    if i < s.len() && is_whitespace_char(s[i]) {
        lemma_skip_ws_from_bounds(s, i + 1);
    }
}

pub proof fn lemma_scan_letters_bounds(s: Seq<char>, i: int)
    requires
        0 <= i <= s.len(),
    ensures
        i <= scan_letters(s, i) <= s.len(),
        i < s.len() && is_letter_char(s[i]) ==> scan_letters(s, i) >= i + 1,
    decreases s.len() - i,
{
    if i < s.len() && is_letter_char(s[i]) {
        lemma_scan_letters_bounds(s, i + 1);
    }
}

pub proof fn lemma_scan_digits_bounds(s: Seq<char>, i: int)
    requires
        0 <= i <= s.len(),
    ensures
        i <= scan_digits(s, i) <= s.len(),
        i < s.len() && is_digit_char(s[i]) ==> scan_digits(s, i) >= i + 1,
    decreases s.len() - i,
{
    if i < s.len() && is_digit_char(s[i]) {
        lemma_scan_digits_bounds(s, i + 1);
    }
}

/// Reading a token never moves the cursor backwards or past the end, always
/// moves it forwards except at the end of the input, and reaches the end
/// exactly when the token is `EndOfInput`.
pub proof fn lemma_next_token_bounds(s: Seq<char>, pos: int)
    requires
        0 <= pos <= s.len(),
    ensures
        ({
            let (k, lit, np) = spec_next_token(s, pos);
            &&& pos <= np <= s.len()
            &&& (k != TokenType::EndOfInput ==> np > pos)
            &&& (k == TokenType::EndOfInput ==> np == s.len())
        }),
{
    lemma_skip_ws_from_bounds(s, pos);
    let i = skip_ws_from(s, pos);
    if i < s.len() {
        lemma_scan_letters_bounds(s, i);
        lemma_scan_digits_bounds(s, i);
    }
}

/// Lookahead disambiguation: at a token start holding `=`, a following `=`
/// yields one `Equal` token consuming two characters, and anything else
/// yields `Assign` consuming one character; the same law ties `!` to
/// `NotEqual` and `Bang`.
pub proof fn lemma_lookahead_disambiguation(s: Seq<char>, pos: int)
    requires
        0 <= pos <= s.len(),
        skip_ws_from(s, pos) < s.len(),
        s[skip_ws_from(s, pos)] == '=' || s[skip_ws_from(s, pos)] == '!',
    ensures
        ({
            let i = skip_ws_from(s, pos);
            let c = s[i];
            let (k, lit, np) = spec_next_token(s, pos);
            if i + 1 < s.len() && s[i + 1] == '=' {
                &&& k == if c == '=' {
                    TokenType::Equal
                } else {
                    TokenType::NotEqual
                }
                &&& lit == seq![c, '=']
                &&& np == i + 2
            } else {
                &&& k == if c == '=' {
                    TokenType::Assign
                } else {
                    TokenType::Bang
                }
                &&& lit == seq![c]
                &&& np == i + 1
            }
        }),
{
    lemma_skip_ws_from_bounds(s, pos);
    let i = skip_ws_from(s, pos);
    let c = s[i];
    if i + 1 < s.len() && s[i + 1] == '=' {
        assert(s.subrange(i, i + 2) =~= seq![c, '=']);
    } else {
        assert(s.subrange(i, i + 1) =~= seq![c]);
    }
}

/// Idempotent end of input: once reading yields `EndOfInput` the cursor
/// stands at the end of the text, and reading from there yields `EndOfInput`
/// with an empty literal again, without moving the cursor any further.
pub proof fn lemma_end_of_input_idempotent(s: Seq<char>, pos: int)
    requires
        0 <= pos <= s.len(),
        spec_next_token(s, pos).0 == TokenType::EndOfInput,
    ensures
        spec_next_token(s, pos) == (TokenType::EndOfInput, Seq::<char>::empty(), s.len() as int),
        spec_next_token(s, s.len() as int) == spec_next_token(s, pos),
{
    lemma_skip_ws_from_bounds(s, pos);
}

/// The token model's literal invariant: every token the lexer yields whose
/// kind has a fixed text (every kind but `Identifier`, `IntegerLiteral` and
/// `Illegal`) carries exactly that text as its literal.
pub proof fn lemma_token_literal_fixed(s: Seq<char>, pos: int)
    requires
        0 <= pos <= s.len(),
    ensures
        ({
            let (k, lit, np) = spec_next_token(s, pos);
            is_fixed_literal_kind(k) ==> lit == spec_fixed_literal(k)
        }),
{
    lemma_skip_ws_from_bounds(s, pos);
    let i = skip_ws_from(s, pos);
    if i < s.len() {
        let c = s[i];
        reveal_strlit("=");
        reveal_strlit("+");
        reveal_strlit("-");
        reveal_strlit("!");
        reveal_strlit("*");
        reveal_strlit("/");
        reveal_strlit("<");
        reveal_strlit(">");
        reveal_strlit("==");
        reveal_strlit("!=");
        reveal_strlit(",");
        reveal_strlit(";");
        reveal_strlit("(");
        reveal_strlit(")");
        reveal_strlit("{");
        reveal_strlit("}");
        if c == '=' || c == '!' {
            if i + 1 < s.len() && s[i + 1] == '=' {
                assert(s.subrange(i, i + 2) =~= seq![c, '=']);
                assert(s.subrange(i, i + 2) == spec_fixed_literal(spec_next_token(s, pos).0));
            } else {
                assert(s.subrange(i, i + 1) =~= seq![c]);
                assert(s.subrange(i, i + 1) == spec_fixed_literal(spec_next_token(s, pos).0));
            }
        } else if is_symbol_char(c) {
            assert(s.subrange(i, i + 1) =~= seq![c]);
            assert(s.subrange(i, i + 1) == spec_fixed_literal(spec_symbol_char_kind(c)));
        } else if is_letter_char(c) {
            // A keyword kind comes only out of the keyword mapping, whose
            // branches each pin the scanned text to the keyword's own text.
        }
    }
}

/// Lexer state: the source text and three cursors — the current read offset,
/// the next read offset, and the current character (absent at end of input).
/// The cursors only ever advance.
pub struct Lexer {
    pub input: String,
    pub position: usize,
    pub read_position: usize,
    pub ch: Option<char>,
}

impl Lexer {
    /// The cursor bounds that `read_char` needs: it reads at `read_position`.
    pub open spec fn cursors_ok(self) -> bool {
        &&& self.position <= self.read_position
        &&& self.read_position as int <= self.input@.len()
    }

    /// Well-formed lexer state: the current character and the next read offset
    /// are determined by the current offset, which never passes the end.
    pub open spec fn wf(self) -> bool {
        &&& self.position as int <= self.input@.len()
        &&& self.read_position as int == if (self.position as int) < self.input@.len() {
            self.position as int + 1
        } else {
            self.position as int
        }
        &&& self.ch == if (self.position as int) < self.input@.len() {
            Some(self.input@[self.position as int])
        } else {
            None::<char>
        }
    }

    /// Create a lexer over the complete source text, with the first character
    /// (if any) already read.
    pub fn new(input: String) -> (l: Lexer)
        ensures
            l.wf(),
            l.input@ == input@,
            l.position == 0,
    {
        let mut l = Lexer { input, position: 0, read_position: 0, ch: None };
        l.read_char();
        l
    }

    /// Advance by one character: the current offset moves to the read offset,
    /// and the current character is the one there, absent at end of input.
    /// At the end of the input the state no longer changes.
    pub fn read_char(&mut self)
        requires
            old(self).cursors_ok(),
        ensures
            final(self).wf(),
            final(self).input == old(self).input,
            final(self).position as int == if (old(self).read_position as int) < old(
                self,
            ).input@.len() {
                old(self).read_position as int
            } else {
                old(self).input@.len() as int
            },
    {
        let n = self.input.as_str().unicode_len();
        if self.read_position < n {
            self.ch = Some(self.input.as_str().get_char(self.read_position));
            self.position = self.read_position;
            self.read_position = self.read_position + 1;
        } else {
            self.ch = None;
            self.position = n;
            self.read_position = n;
        }
    }

    /// The character at the next read offset, if there is one, without
    /// consuming anything.
    fn peek_char(&self) -> (c: Option<char>)
        requires
            self.cursors_ok(),
        ensures
            c == if (self.read_position as int) < self.input@.len() {
                Some(self.input@[self.read_position as int])
            } else {
                None::<char>
            },
    {
        let n = self.input.as_str().unicode_len();
        if self.read_position < n {
            Some(self.input.as_str().get_char(self.read_position))
        } else {
            None
        }
    }

    /// Whether the current character can stand in an identifier.
    fn is_letter(&self) -> (r: bool)
        ensures
            r == match self.ch {
                Some(c) => is_letter_char(c),
                None => false,
            },
    {
        if let Some(ch) = self.ch {
            ('a' <= ch && ch <= 'z') || ('A' <= ch && ch <= 'Z') || ch == '_'
        } else {
            false
        }
    }

    /// Whether the current character is a decimal digit.
    fn is_digit(&self) -> (r: bool)
        ensures
            r == match self.ch {
                Some(c) => is_digit_char(c),
                None => false,
            },
    {
        if let Some(ch) = self.ch {
            '0' <= ch && ch <= '9'
        } else {
            false
        }
    }

    /// Whether the current character is whitespace.
    fn is_whitespace(&self) -> (r: bool)
        ensures
            r == match self.ch {
                Some(c) => is_whitespace_char(c),
                None => false,
            },
    {
        if let Some(ch) = self.ch {
            ch == ' ' || ch == '\t' || ch == '\n' || ch == '\r'
        } else {
            false
        }
    }

    /// Advance past every whitespace character before the next token.
    fn skip_whitespace(&mut self)
        requires
            old(self).wf(),
        ensures
            final(self).wf(),
            final(self).input == old(self).input,
            final(self).position as int == skip_ws_from(
                old(self).input@,
                old(self).position as int,
            ),
    {
        while self.is_whitespace()
            invariant
                old(self).wf(),
                self.wf(),
                self.input == old(self).input,
                skip_ws_from(self.input@, self.position as int) == skip_ws_from(
                    old(self).input@,
                    old(self).position as int,
                ),
            decreases self.input@.len() - self.position as int,
        {
            self.read_char();
        }
    }

    /// Scan the run of identifier characters starting at the current offset
    /// and return its text; the cursor ends on the first character past it.
    fn read_identifier(&mut self) -> (r: String)
        requires
            old(self).wf(),
        ensures
            final(self).wf(),
            final(self).input == old(self).input,
            final(self).position as int == scan_letters(
                old(self).input@,
                old(self).position as int,
            ),
            r@ == old(self).input@.subrange(old(self).position as int, final(self).position as int),
    {
        let position = self.position;
        while self.is_letter()
            invariant
                old(self).wf(),
                self.wf(),
                self.input == old(self).input,
                position <= self.position,
                scan_letters(self.input@, self.position as int) == scan_letters(
                    old(self).input@,
                    old(self).position as int,
                ),
            decreases self.input@.len() - self.position as int,
        {
            self.read_char();
        }
        self.slice_input(position)
    }

    /// Scan the run of decimal digits starting at the current offset and
    /// return its text; the cursor ends on the first character past it.
    fn read_number(&mut self) -> (r: String)
        requires
            old(self).wf(),
        ensures
            final(self).wf(),
            final(self).input == old(self).input,
            final(self).position as int == scan_digits(
                old(self).input@,
                old(self).position as int,
            ),
            r@ == old(self).input@.subrange(old(self).position as int, final(self).position as int),
    {
        let position = self.position;
        while self.is_digit()
            invariant
                old(self).wf(),
                self.wf(),
                self.input == old(self).input,
                position <= self.position,
                scan_digits(self.input@, self.position as int) == scan_digits(
                    old(self).input@,
                    old(self).position as int,
                ),
            decreases self.input@.len() - self.position as int,
        {
            self.read_char();
        }
        self.slice_input(position)
    }

    /// The text between a start offset and the current offset.
    fn slice_input(&self, position: usize) -> (r: String)
        requires
            self.wf(),
            position <= self.position,
        ensures
            r@ == self.input@.subrange(position as int, self.position as int),
    {
        self.input.as_str().substring_char(position, self.position).to_owned()
    }

    /// One-character lookahead for `=` and `!`: when the next character is
    /// also `=`, consume it and return the two-character operator text;
    /// otherwise change nothing and return nothing.
    fn get_equal_or_not_equal_string(&mut self, c: char) -> (r: Option<String>)
        requires
            old(self).wf(),
            (old(self).position as int) < old(self).input@.len(),
            old(self).input@[old(self).position as int] == c,
            c == '=' || c == '!',
        ensures
            final(self).wf(),
            final(self).input == old(self).input,
            if old(self).position as int + 1 < old(self).input@.len() && old(self).input@[old(
                self,
            ).position as int + 1] == '=' {
                &&& r matches Some(lit) && lit@ == seq![c, '=']
                &&& final(self).position == old(self).position + 1
            } else {
                &&& r is None
                &&& *final(self) == *old(self)
            },
    {
        if let Some(next_char) = self.peek_char() {
            if next_char == '=' {
                self.read_char();
                let lit = if c == '=' {
                    String::from_str("==")
                } else {
                    String::from_str("!=")
                };
                proof {
                    reveal_strlit("==");
                    reveal_strlit("!=");
                    assert(lit@ =~= seq![c, '=']);
                }
                return Some(lit);
            }
        }
        None
    }

    /// Return the next token in the input, consuming it. Repeated calls after
    /// end of input each return a fresh `EndOfInput` token: the lexer never
    /// fails and never rewinds.
    pub fn next_token(&mut self) -> (token: Token)
        requires
            old(self).wf(),
        ensures
            final(self).wf(),
            final(self).input == old(self).input,
            old(self).position <= final(self).position,
            ({
                let (k, lit, np) = spec_next_token(old(self).input@, old(self).position as int);
                &&& token.token_type == k
                &&& token.literal@ == lit
                &&& final(self).position as int == np
            }),
    {
        proof {
            lemma_skip_ws_from_bounds(old(self).input@, old(self).position as int);
            lemma_next_token_bounds(old(self).input@, old(self).position as int);
        }
        self.skip_whitespace();
        let ghost s = self.input@;
        let ghost i = self.position as int;
        match self.ch {
            None => {
                self.read_char();
                Token::new(TokenType::EndOfInput, String::new())
            },
            Some(c) => {
                if c == '=' || c == '!' {
                    let start = self.position;
                    match self.get_equal_or_not_equal_string(c) {
                        Some(literal) => {
                            self.read_char();
                            proof {
                                assert(s.subrange(i, i + 2) =~= seq![c, '=']);
                            }
                            Token::new(
                                if c == '=' {
                                    TokenType::Equal
                                } else {
                                    TokenType::NotEqual
                                },
                                literal,
                            )
                        },
                        None => {
                            self.read_char();
                            let literal = self.slice_input(start);
                            Token::new(
                                if c == '=' {
                                    TokenType::Assign
                                } else {
                                    TokenType::Bang
                                },
                                literal,
                            )
                        },
                    }
                } else if c == '+' || c == '-' || c == ';' || c == '(' || c == ')' || c == ','
                    || c == '{' || c == '}' || c == '/' || c == '*' || c == '<' || c == '>' {
                    let start = self.position;
                    self.read_char();
                    let literal = self.slice_input(start);
                    let token_type = if c == '+' {
                        TokenType::Plus
                    } else if c == '-' {
                        TokenType::Minus
                    } else if c == ';' {
                        TokenType::Semicolon
                    } else if c == '(' {
                        TokenType::LParen
                    } else if c == ')' {
                        TokenType::RParen
                    } else if c == ',' {
                        TokenType::Comma
                    } else if c == '{' {
                        TokenType::LBrace
                    } else if c == '}' {
                        TokenType::RBrace
                    } else if c == '/' {
                        TokenType::Slash
                    } else if c == '*' {
                        TokenType::Asterisk
                    } else if c == '<' {
                        TokenType::LessThan
                    } else {
                        TokenType::GreaterThan
                    };
                    Token::new(token_type, literal)
                } else if self.is_letter() {
                    let literal = self.read_identifier();
                    let token_type = TokenType::lookup_indent(&literal);
                    Token::new(token_type, literal)
                } else if self.is_digit() {
                    Token::new(TokenType::IntegerLiteral, self.read_number())
                } else {
                    let start = self.position;
                    self.read_char();
                    let literal = self.slice_input(start);
                    Token::new(TokenType::Illegal, literal)
                }
            },
        }
    }
}

} // verus!
