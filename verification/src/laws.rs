//! What holds of the grammar for every input.

use vstd::prelude::*;
use crate::grammar::{
    ascii_text, byte_at, cursor_after, is_digit, is_letter, is_space, keyword, next_cursor,
    next_token, run_end, saturate, symbol, token_start, ByteClass, Lexeme,
};

verus! {

/// A run reaches from its start to the first byte outside the class, or to
/// the end of the input: every byte in it is of the class, and the byte
/// behind it, if there is one, is not.
pub proof fn lemma_run_end_is_maximal(input: Seq<u8>, start: int, class: ByteClass)
    requires
        0 <= start <= input.len(),
    ensures
        start <= run_end(input, start, class) <= input.len(),
        forall|i: int| start <= i < run_end(input, start, class) ==> class.has(#[trigger] input[i]),
        !class.has(byte_at(input, run_end(input, start, class))),
    decreases input.len() - start,
{
    if start < input.len() && class.has(input[start]) {
        lemma_run_end_is_maximal(input, start + 1, class);
    }
}

/// There is one maximal run from a given start: a stretch of bytes of the
/// class that the input's end or a byte outside the class closes is the run.
pub proof fn lemma_run_end_is_unique(input: Seq<u8>, start: int, end: int, class: ByteClass)
    requires
        0 <= start <= end <= input.len(),
        forall|i: int| start <= i < end ==> class.has(#[trigger] input[i]),
        end == input.len() || !class.has(input[end]),
    ensures
        run_end(input, start, class) == end,
    decreases end - start,
{
    if start < end {
        lemma_run_end_is_unique(input, start + 1, end, class);
    }
}

/// A token that starts inside the input takes at least one byte and ends
/// inside the input or at its end. The cursor behind it is then a machine
/// index as it stands.
pub proof fn lemma_token_lies_within_input(input: Seq<u8>, pos: int)
    requires
        0 <= pos,
        token_start(input, pos) < input.len(),
    ensures
        pos < next_cursor(input, pos) <= input.len(),
        input.len() <= usize::MAX ==> saturate(next_cursor(input, pos)) == next_cursor(input, pos),
{
    let start = token_start(input, pos);
    lemma_run_end_is_maximal(input, start, ByteClass::Letter);
    lemma_run_end_is_maximal(input, start, ByteClass::Digit);
}

/// Each of the one-byte symbols yields its own token, and the cursor moves
/// one byte on. A `!` is such a symbol where no `=` follows it.
pub proof fn lemma_single_symbol(input: Seq<u8>, pos: int)
    requires
        0 <= pos < input.len(),
    ensures
        input[pos] == '+' as u8 ==> next_token(input, pos) == Lexeme::Plus,
        input[pos] == '-' as u8 ==> next_token(input, pos) == Lexeme::Minus,
        input[pos] == '!' as u8 && byte_at(input, pos + 1) != '=' as u8 ==> next_token(input, pos)
            == Lexeme::Bang,
        input[pos] == '*' as u8 ==> next_token(input, pos) == Lexeme::Asterisk,
        input[pos] == '/' as u8 ==> next_token(input, pos) == Lexeme::Fslash,
        input[pos] == '<' as u8 ==> next_token(input, pos) == Lexeme::Lt,
        input[pos] == '>' as u8 ==> next_token(input, pos) == Lexeme::Gt,
        input[pos] == ';' as u8 ==> next_token(input, pos) == Lexeme::Semicolon,
        input[pos] == '(' as u8 ==> next_token(input, pos) == Lexeme::Lparen,
        input[pos] == ')' as u8 ==> next_token(input, pos) == Lexeme::Rparen,
        input[pos] == '{' as u8 ==> next_token(input, pos) == Lexeme::Lbrace,
        input[pos] == '}' as u8 ==> next_token(input, pos) == Lexeme::Rbrace,
        input[pos] == ',' as u8 ==> next_token(input, pos) == Lexeme::Comma,
        symbol(input[pos]) is Some && input[pos] != '=' as u8 && !(input[pos] == '!' as u8
            && byte_at(input, pos + 1) == '=' as u8) ==> next_cursor(input, pos) == pos + 1,
{
}

/// `==` and `!=` yield one token each, and the cursor moves behind both
/// bytes, so that the second is not read again.
pub proof fn lemma_two_byte_operator(input: Seq<u8>, pos: int)
    requires
        0 <= pos,
        pos + 1 < input.len(),
        input[pos + 1] == '=' as u8,
    ensures
        input[pos] == '=' as u8 ==> next_token(input, pos) == Lexeme::Equal && next_cursor(
            input,
            pos,
        ) == pos + 2,
        input[pos] == '!' as u8 ==> next_token(input, pos) == Lexeme::NotEqual && next_cursor(
            input,
            pos,
        ) == pos + 2,
{
}

/// A `=` that no `=` follows yields `Assign`, a `!` that no `=` follows
/// yields `Bang`, and the cursor moves one byte on.
pub proof fn lemma_lone_assign_or_bang(input: Seq<u8>, pos: int)
    requires
        0 <= pos < input.len(),
        byte_at(input, pos + 1) != '=' as u8,
    ensures
        input[pos] == '=' as u8 ==> next_token(input, pos) == Lexeme::Assign && next_cursor(
            input,
            pos,
        ) == pos + 1,
        input[pos] == '!' as u8 ==> next_token(input, pos) == Lexeme::Bang && next_cursor(
            input,
            pos,
        ) == pos + 1,
{
}

/// A maximal run of letters and underscores yields the keyword that it
/// spells, or else an identifier with its text, and the cursor moves to the
/// run's end. Only the whole run counts: a run that a keyword merely begins is
/// an identifier.
pub proof fn lemma_word(input: Seq<u8>, start: int, end: int)
    requires
        0 <= start < end <= input.len(),
        forall|i: int| start <= i < end ==> is_letter(#[trigger] input[i]),
        end == input.len() || !is_letter(input[end]),
    ensures
        next_cursor(input, start) == end,
        ({
            let text = ascii_text(input.subrange(start, end));
            let token = next_token(input, start);
            &&& text == "fn"@ ==> token == Lexeme::Function
            &&& text == "let"@ ==> token == Lexeme::Let
            &&& text == "true"@ ==> token == Lexeme::True
            &&& text == "false"@ ==> token == Lexeme::False
            &&& text == "if"@ ==> token == Lexeme::If
            &&& text == "else"@ ==> token == Lexeme::Else
            &&& text == "return"@ ==> token == Lexeme::Return
            &&& keyword(text) is None ==> token == Lexeme::Ident(text)
            &&& keyword(text) is None <==> text != "fn"@ && text != "let"@ && text != "true"@
                && text != "false"@ && text != "if"@ && text != "else"@ && text != "return"@
        }),
{
    lemma_run_end_is_unique(input, start, end, ByteClass::Letter);
    lemma_keywords_differ();
}

/// Enough of the keywords' spelling to tell each from the others.
proof fn lemma_keywords_differ()
    ensures
        "fn"@.len() == 2,
        "if"@.len() == 2,
        "fn"@ != "if"@,
        "let"@.len() == 3,
        "true"@.len() == 4,
        "else"@.len() == 4,
        "true"@ != "else"@,
        "false"@.len() == 5,
        "return"@.len() == 6,
{
    reveal_strlit("fn");
    reveal_strlit("if");
    reveal_strlit("let");
    reveal_strlit("true");
    reveal_strlit("else");
    reveal_strlit("false");
    reveal_strlit("return");
    assert("fn"@[0] != "if"@[0]);
    assert("true"@[0] != "else"@[0]);
}

/// A maximal run of digits yields an integer literal with the run's text,
/// one character for each digit as it stands, and the cursor moves to the
/// run's end.
pub proof fn lemma_integer(input: Seq<u8>, start: int, end: int)
    requires
        0 <= start < end <= input.len(),
        forall|i: int| start <= i < end ==> is_digit(#[trigger] input[i]),
        end == input.len() || !is_digit(input[end]),
    ensures
        next_cursor(input, start) == end,
        next_token(input, start) matches Lexeme::Int(text) && text.len() == end - start
            && forall|i: int| 0 <= i < end - start ==> text[i] == input[start + i] as char,
{
    lemma_run_end_is_unique(input, start, end, ByteClass::Digit);
}

/// Once the cursor has reached the end of the input, every token is `Eof`,
/// however many are asked for.
pub proof fn lemma_eof_is_final(input: Seq<u8>, pos: int, n: nat)
    requires
        input.len() <= usize::MAX,
        input.len() <= pos,
    ensures
        input.len() <= cursor_after(input, pos, n),
        next_token(input, cursor_after(input, pos, n)) == Lexeme::Eof,
    decreases n,
{
    if n > 0 {
        lemma_eof_is_final(input, pos, (n - 1) as nat);
    }
}

/// A byte that is no whitespace, symbol, letter or digit, and not 0, yields
/// `Illegal`, and the cursor moves one byte on.
pub proof fn lemma_unrecognised_byte(input: Seq<u8>, pos: int)
    requires
        0 <= pos < input.len(),
        input[pos] != 0,
        !is_space(input[pos]),
        symbol(input[pos]) is None,
        !is_letter(input[pos]),
        !is_digit(input[pos]),
    ensures
        next_token(input, pos) == Lexeme::Illegal,
        next_cursor(input, pos) == pos + 1,
{
}

/// Only one whitespace byte is skipped before a token: a second one in a row
/// yields `Illegal`.
pub proof fn lemma_second_space_is_illegal(input: Seq<u8>, pos: int)
    requires
        0 <= pos,
        pos + 1 < input.len(),
        is_space(input[pos]),
        is_space(input[pos + 1]),
    ensures
        next_token(input, pos) == Lexeme::Illegal,
        next_cursor(input, pos) == pos + 2,
{
}

} // verus!
