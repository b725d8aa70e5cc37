//! The lexical grammar, as functions on byte sequences and positions.
//!
//! A position is an `int`; a position outside the input reads as the byte 0,
//! which is also how the end of the input shows itself to the lexer.

use vstd::prelude::*;

verus! {

/// What a token is, with the text of identifiers and integer literals as
/// character sequences.
pub enum Lexeme {
    Illegal,
    Eof,
    Ident(Seq<char>),
    Int(Seq<char>),
    Assign,
    Plus,
    Minus,
    Bang,
    Asterisk,
    Fslash,
    Lt,
    Gt,
    Comma,
    Semicolon,
    Lparen,
    Rparen,
    Lbrace,
    Rbrace,
    Function,
    Let,
    True,
    False,
    If,
    Else,
    Return,
    Equal,
    NotEqual,
}

/// The two classes of bytes of which maximal runs are read.
pub enum ByteClass {
    Letter,
    Digit,
}

impl ByteClass {
    pub open spec fn has(self, b: u8) -> bool {
        match self {
            ByteClass::Letter => is_letter(b),
            ByteClass::Digit => is_digit(b),
        }
    }
}

/// The byte under a cursor at `pos`: the input's byte there, or 0 where `pos`
/// lies outside the input.
pub open spec fn byte_at(input: Seq<u8>, pos: int) -> u8 {
    if 0 <= pos < input.len() {
        input[pos]
    } else {
        0
    }
}

/// Space, tab, line feed or carriage return.
pub open spec fn is_space(b: u8) -> bool {
    b == ' ' as u8 || b == '\t' as u8 || b == '\n' as u8 || b == '\r' as u8
}

/// An ASCII letter or an underscore.
pub open spec fn is_letter(b: u8) -> bool {
    ('a' as u8 <= b && b <= 'z' as u8) || ('A' as u8 <= b && b <= 'Z' as u8) || b == '_' as u8
}

/// An ASCII digit.
pub open spec fn is_digit(b: u8) -> bool {
    '0' as u8 <= b && b <= '9' as u8
}

/// The characters that a sequence of ASCII bytes spells: one per byte, with
/// the byte's value as its code point.
pub open spec fn ascii_text(bytes: Seq<u8>) -> Seq<char> {
    Seq::new(bytes.len(), |i: int| bytes[i] as char)
}

/// Where the maximal run of bytes of `class` that starts at `start` ends: the
/// first position from `start` on that holds no byte of the class, or the
/// input's length. It is `start` itself where no such run starts there.
pub open spec fn run_end(input: Seq<u8>, start: int, class: ByteClass) -> int
    decreases input.len() - start,
{
    if 0 <= start < input.len() && class.has(input[start]) {
        run_end(input, start + 1, class)
    } else {
        start
    }
}

/// The token of a one-byte symbol, `=` and `!` among them.
pub open spec fn symbol(b: u8) -> Option<Lexeme> {
    if b == '=' as u8 {
        Some(Lexeme::Assign)
    } else if b == '+' as u8 {
        Some(Lexeme::Plus)
    } else if b == '-' as u8 {
        Some(Lexeme::Minus)
    } else if b == '!' as u8 {
        Some(Lexeme::Bang)
    } else if b == '*' as u8 {
        Some(Lexeme::Asterisk)
    } else if b == '/' as u8 {
        Some(Lexeme::Fslash)
    } else if b == '<' as u8 {
        Some(Lexeme::Lt)
    } else if b == '>' as u8 {
        Some(Lexeme::Gt)
    } else if b == ';' as u8 {
        Some(Lexeme::Semicolon)
    } else if b == '(' as u8 {
        Some(Lexeme::Lparen)
    } else if b == ')' as u8 {
        Some(Lexeme::Rparen)
    } else if b == '{' as u8 {
        Some(Lexeme::Lbrace)
    } else if b == '}' as u8 {
        Some(Lexeme::Rbrace)
    } else if b == ',' as u8 {
        Some(Lexeme::Comma)
    } else {
        None
    }
}

/// The keyword that `text` spells, if it spells one.
pub open spec fn keyword(text: Seq<char>) -> Option<Lexeme> {
    if text == "fn"@ {
        Some(Lexeme::Function)
    } else if text == "true"@ {
        Some(Lexeme::True)
    } else if text == "false"@ {
        Some(Lexeme::False)
    } else if text == "let"@ {
        Some(Lexeme::Let)
    } else if text == "if"@ {
        Some(Lexeme::If)
    } else if text == "else"@ {
        Some(Lexeme::Else)
    } else if text == "return"@ {
        Some(Lexeme::Return)
    } else {
        None
    }
}

/// The token of a run of letters: its keyword, or an identifier with the
/// run's text.
pub open spec fn word(text: Seq<char>) -> Lexeme {
    match keyword(text) {
        Some(k) => k,
        None => Lexeme::Ident(text),
    }
}

/// Whether a two-byte operator, `==` or `!=`, stands at `pos`.
pub open spec fn is_pair(input: Seq<u8>, pos: int) -> bool {
    let b = byte_at(input, pos);
    (b == '=' as u8 || b == '!' as u8) && byte_at(input, pos + 1) == '=' as u8
}

/// The token that starts at `pos`, with no whitespace skipped.
pub open spec fn token_at(input: Seq<u8>, pos: int) -> Lexeme {
    let b = byte_at(input, pos);
    if is_pair(input, pos) {
        if b == '=' as u8 {
            Lexeme::Equal
        } else {
            Lexeme::NotEqual
        }
    } else if symbol(b) is Some {
        symbol(b).unwrap()
    } else if is_letter(b) {
        word(ascii_text(input.subrange(pos, run_end(input, pos, ByteClass::Letter))))
    } else if is_digit(b) {
        Lexeme::Int(ascii_text(input.subrange(pos, run_end(input, pos, ByteClass::Digit))))
    } else if b == 0 {
        Lexeme::Eof
    } else {
        Lexeme::Illegal
    }
}

/// The position just behind the token that starts at `pos`. Every token but
/// a run of letters or digits and a two-byte operator takes one position, the
/// end of the input too.
pub open spec fn token_end(input: Seq<u8>, pos: int) -> int {
    let b = byte_at(input, pos);
    if is_pair(input, pos) {
        pos + 2
    } else if symbol(b) is Some {
        pos + 1
    } else if is_letter(b) {
        run_end(input, pos, ByteClass::Letter)
    } else if is_digit(b) {
        run_end(input, pos, ByteClass::Digit)
    } else {
        pos + 1
    }
}

/// Where the next token starts for a cursor at `pos`: behind one whitespace
/// byte, if one stands at `pos`. A second whitespace byte is not skipped.
pub open spec fn token_start(input: Seq<u8>, pos: int) -> int {
    if is_space(byte_at(input, pos)) {
        pos + 1
    } else {
        pos
    }
}

/// The token that a cursor at `pos` yields.
pub open spec fn next_token(input: Seq<u8>, pos: int) -> Lexeme {
    token_at(input, token_start(input, pos))
}

/// The position of the cursor after it has yielded `next_token(input, pos)`.
pub open spec fn next_cursor(input: Seq<u8>, pos: int) -> int {
    token_end(input, token_start(input, pos))
}

/// `pos` as a machine index: itself, or `usize::MAX` where it is larger.
pub open spec fn saturate(pos: int) -> int {
    if pos > usize::MAX {
        usize::MAX as int
    } else {
        pos
    }
}

/// The position of a lexer's cursor after it has yielded `n` tokens, starting
/// from `pos`: each token moves it to `next_cursor`, as far as a `usize` can
/// follow.
pub open spec fn cursor_after(input: Seq<u8>, pos: int, n: nat) -> int
    decreases n,
{
    if n == 0 {
        pos
    } else {
        saturate(next_cursor(input, cursor_after(input, pos, (n - 1) as nat)))
    }
}

} // verus!
