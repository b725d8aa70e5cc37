//! The lexer: a cursor over an input buffer that yields one token per call.

use vstd::prelude::*;
use vstd::slice::*;
use vstd::string::*;
use vstd::utf8::encode_utf8;
use crate::grammar::{
    ascii_text, byte_at, is_digit, is_letter, is_space, keyword, next_cursor, next_token, run_end,
    saturate, token_start, ByteClass, Lexeme,
};
use crate::text::{ascii_string, same_text};

verus! {

/// One lexical unit. Identifiers and integer literals carry their text as it
/// stands in the input; an integer literal is not read as a number.
#[derive(Debug, PartialEq)]
pub enum Token {
    Illegal,
    Eof,
    Ident(String),
    Int(String),
    Assign,
    Plus,
    Minus,
    Bang,
    Asterisk,
    Fslash,
    Lt,
    Gt,
    Comma,
    Semicolon,
    Lparen,
    Rparen,
    Lbrace,
    Rbrace,
    Function,
    Let,
    True,
    False,
    If,
    Else,
    Return,
    Equal,
    NotEqual,
}

impl View for Token {
    type V = Lexeme;

    open spec fn view(&self) -> Lexeme {
        match self {
            Token::Illegal => Lexeme::Illegal,
            Token::Eof => Lexeme::Eof,
            Token::Ident(text) => Lexeme::Ident(text@),
            Token::Int(text) => Lexeme::Int(text@),
            Token::Assign => Lexeme::Assign,
            Token::Plus => Lexeme::Plus,
            Token::Minus => Lexeme::Minus,
            Token::Bang => Lexeme::Bang,
            Token::Asterisk => Lexeme::Asterisk,
            Token::Fslash => Lexeme::Fslash,
            Token::Lt => Lexeme::Lt,
            Token::Gt => Lexeme::Gt,
            Token::Comma => Lexeme::Comma,
            Token::Semicolon => Lexeme::Semicolon,
            Token::Lparen => Lexeme::Lparen,
            Token::Rparen => Lexeme::Rparen,
            Token::Lbrace => Lexeme::Lbrace,
            Token::Rbrace => Lexeme::Rbrace,
            Token::Function => Lexeme::Function,
            Token::Let => Lexeme::Let,
            Token::True => Lexeme::True,
            Token::False => Lexeme::False,
            Token::If => Lexeme::If,
            Token::Else => Lexeme::Else,
            Token::Return => Lexeme::Return,
            Token::Equal => Lexeme::Equal,
            Token::NotEqual => Lexeme::NotEqual,
        }
    }
}

/// A cursor over an input buffer.
///
/// `position` is the index of the byte under the cursor, `peek` the index
/// after it, and `ch` the byte under the cursor, 0 once the cursor has left
/// the buffer.
pub struct Lexer {
    pub input: Vec<u8>,
    pub position: usize,
    pub peek: usize,
    pub ch: u8,
}

fn is_space_byte(b: u8) -> (yes: bool)
    ensures
        yes == is_space(b),
{
    b == ' ' as u8 || b == '\t' as u8 || b == '\n' as u8 || b == '\r' as u8
}

fn is_letter_byte(b: u8) -> (yes: bool)
    ensures
        yes == is_letter(b),
{
    ('a' as u8 <= b && b <= 'z' as u8) || ('A' as u8 <= b && b <= 'Z' as u8) || b == '_' as u8
}

fn is_digit_byte(b: u8) -> (yes: bool)
    ensures
        yes == is_digit(b),
{
    '0' as u8 <= b && b <= '9' as u8
}

/// The keyword token for `identifier`, if it is a keyword.
fn lookup_keyword(identifier: &str) -> (found: Option<Token>)
    ensures
        match found {
            Some(token) => keyword(identifier@) == Some(token@),
            None => keyword(identifier@) is None,
        },
{
    if same_text(identifier, "fn") {
        Some(Token::Function)
    } else if same_text(identifier, "true") {
        Some(Token::True)
    } else if same_text(identifier, "false") {
        Some(Token::False)
    } else if same_text(identifier, "let") {
        Some(Token::Let)
    } else if same_text(identifier, "if") {
        Some(Token::If)
    } else if same_text(identifier, "else") {
        Some(Token::Else)
    } else if same_text(identifier, "return") {
        Some(Token::Return)
    } else {
        None
    }
}

impl Lexer {
    /// The cursor is consistent: `peek` is one past `position`, as far as a
    /// `usize` can say so, and `ch` is the byte at `position`.
    pub open spec fn wf(&self) -> bool {
        &&& self.peek == saturate(self.position + 1)
        &&& self.ch == byte_at(self.input@, self.position as int)
    }

    /// A lexer over the bytes of `input`, with the cursor on the first byte.
    pub fn new(input: String) -> (lexer: Lexer)
        ensures
            lexer.wf(),
            lexer.input@ == encode_utf8(input@),
            lexer.position == 0,
    {
        let mut l = Lexer { input: input.as_str().as_bytes_vec(), position: 0, peek: 0, ch: 0 };
        l.read_char();
        l
    }

    /// Moves the cursor one byte on: to `peek`, which itself moves one on.
    /// Past the end of the input the byte under the cursor reads as 0.
    fn read_char(&mut self)
        ensures
            final(self).input == old(self).input,
            final(self).position == old(self).peek,
            final(self).peek == saturate(old(self).peek + 1),
            final(self).ch == byte_at(old(self).input@, old(self).peek as int),
    {
        if self.peek >= self.input.len() {
            self.ch = 0
        } else {
            self.ch = self.input[self.peek];
        }
        self.position = self.peek;
        self.peek = self.peek.saturating_add(1);
    }

    /// The byte after the one under the cursor, or 0 where there is none.
    fn peek_char(&self) -> (b: u8)
        ensures
            b == byte_at(self.input@, self.peek as int),
    {
        if self.peek >= self.input.len() {
            0
        } else {
            self.input[self.peek]
        }
    }

    /// Reads the run of letters and underscores under the cursor, up to its
    /// end.
    fn read_ident(&mut self) -> (text: String)
        requires
            old(self).wf(),
            old(self).position <= old(self).input.len(),
        ensures
            final(self).wf(),
            final(self).input == old(self).input,
            final(self).position == run_end(
                old(self).input@,
                old(self).position as int,
                ByteClass::Letter,
            ),
            text@ == ascii_text(
                old(self).input@.subrange(old(self).position as int, final(self).position as int),
            ),
    {
        let position = self.position;
        while is_letter_byte(self.ch)
            invariant
                self.wf(),
                self.input == old(self).input,
                position <= self.position <= self.input.len(),
                run_end(self.input@, self.position as int, ByteClass::Letter) == run_end(
                    self.input@,
                    position as int,
                    ByteClass::Letter,
                ),
                forall|i: int| position <= i < self.position ==> is_letter(self.input@[i]),
            decreases self.input.len() - self.position,
        {
            self.read_char()
        }
        ascii_string(slice_subrange(self.input.as_slice(), position, self.position))
    }

    /// Reads the run of digits under the cursor, up to its end.
    fn read_int(&mut self) -> (text: String)
        requires
            old(self).wf(),
            old(self).position <= old(self).input.len(),
        ensures
            final(self).wf(),
            final(self).input == old(self).input,
            final(self).position == run_end(
                old(self).input@,
                old(self).position as int,
                ByteClass::Digit,
            ),
            text@ == ascii_text(
                old(self).input@.subrange(old(self).position as int, final(self).position as int),
            ),
    {
        let position = self.position;
        while is_digit_byte(self.ch)
            invariant
                self.wf(),
                self.input == old(self).input,
                position <= self.position <= self.input.len(),
                run_end(self.input@, self.position as int, ByteClass::Digit) == run_end(
                    self.input@,
                    position as int,
                    ByteClass::Digit,
                ),
                forall|i: int| position <= i < self.position ==> is_digit(self.input@[i]),
            decreases self.input.len() - self.position,
        {
            self.read_char()
        }
        ascii_string(slice_subrange(self.input.as_slice(), position, self.position))
    }

    /// Skips one whitespace byte, if one is under the cursor.
    fn read_whitespace(&mut self)
        requires
            old(self).wf(),
        ensures
            final(self).wf(),
            final(self).input == old(self).input,
            final(self).position == token_start(old(self).input@, old(self).position as int),
    {
        // The buffer's length is a `usize`, so `peek` is exact inside it.
        assert(self.input@.len() == self.input.len());
        if is_space_byte(self.ch) {
            self.read_char()
        }
    }

    /// Yields the next token and moves the cursor behind it. The result is
    /// never `None`: at the end of the input every call yields `Token::Eof`.
    pub fn consume(&mut self) -> (token: Option<Token>)
        requires
            old(self).wf(),
        ensures
            final(self).wf(),
            final(self).input == old(self).input,
            token matches Some(t) && t@ == next_token(
                old(self).input@,
                old(self).position as int,
            ),
            final(self).position == saturate(
                next_cursor(old(self).input@, old(self).position as int),
            ),
    {
        // The buffer's length is a `usize`, so `peek` is exact inside it.
        assert(self.input@.len() == self.input.len());
        self.read_whitespace();
        let c = self.ch;
        let token = if c == '=' as u8 {
            if self.peek_char() == '=' as u8 {
                self.read_char();
                Token::Equal
            } else {
                Token::Assign
            }
        } else if c == '+' as u8 {
            Token::Plus
        } else if c == '-' as u8 {
            Token::Minus
        } else if c == '!' as u8 {
            if self.peek_char() == '=' as u8 {
                self.read_char();
                Token::NotEqual
            } else {
                Token::Bang
            }
        } else if c == '*' as u8 {
            Token::Asterisk
        } else if c == '/' as u8 {
            Token::Fslash
        } else if c == '<' as u8 {
            Token::Lt
        } else if c == '>' as u8 {
            Token::Gt
        } else if c == ';' as u8 {
            Token::Semicolon
        } else if c == '(' as u8 {
            Token::Lparen
        } else if c == ')' as u8 {
            Token::Rparen
        } else if c == '{' as u8 {
            Token::Lbrace
        } else if c == '}' as u8 {
            Token::Rbrace
        } else if c == ',' as u8 {
            Token::Comma
        } else if is_letter_byte(c) {
            let identifier = self.read_ident();
            return Some(
                match lookup_keyword(identifier.as_str()) {
                    Some(keyword) => keyword,
                    None => Token::Ident(identifier),
                },
            );
        } else if is_digit_byte(c) {
            return Some(Token::Int(self.read_int()));
        } else if c == 0 {
            Token::Eof
        } else {
            Token::Illegal
        };
        self.read_char();
        Some(token)
    }
}

} // verus!
