use scanner::lexer::{Lexer, Token};

fn lexer_over(input: &str) -> Lexer {
    Lexer::new(input.to_string())
}

fn single(input: &str) -> (Token, usize) {
    let mut lexer = lexer_over(input);
    let token = lexer.consume().unwrap();
    (token, lexer.position)
}

#[test]
fn new_lexer_rests_on_first_byte() {
    let lexer = lexer_over("ab");
    assert_eq!(lexer.input, vec![0x61u8, 0x62]);
    assert_eq!(lexer.position, 0);
    assert_eq!(lexer.peek, 1);
    assert_eq!(lexer.ch, 0x61);
}

#[test]
fn new_lexer_over_empty_input() {
    let lexer = lexer_over("");
    assert_eq!(lexer.input, Vec::<u8>::new());
    assert_eq!(lexer.position, 0);
    assert_eq!(lexer.peek, 1);
    assert_eq!(lexer.ch, 0);
}

#[test]
fn new_lexer_holds_utf8_bytes() {
    let lexer = lexer_over("é");
    assert_eq!(lexer.input, vec![0xc3u8, 0xa9]);
    assert_eq!(lexer.ch, 0xc3);
}

#[test]
fn every_single_symbol() {
    assert_eq!(single("+"), (Token::Plus, 1));
    assert_eq!(single("-"), (Token::Minus, 1));
    assert_eq!(single("!"), (Token::Bang, 1));
    assert_eq!(single("*"), (Token::Asterisk, 1));
    assert_eq!(single("/"), (Token::Fslash, 1));
    assert_eq!(single("<"), (Token::Lt, 1));
    assert_eq!(single(">"), (Token::Gt, 1));
    assert_eq!(single(";"), (Token::Semicolon, 1));
    assert_eq!(single("("), (Token::Lparen, 1));
    assert_eq!(single(")"), (Token::Rparen, 1));
    assert_eq!(single("{"), (Token::Lbrace, 1));
    assert_eq!(single("}"), (Token::Rbrace, 1));
    assert_eq!(single(","), (Token::Comma, 1));
}

#[test]
fn symbol_leaves_cursor_on_next_byte() {
    let mut lexer = lexer_over("+-");
    assert_eq!(lexer.consume(), Some(Token::Plus));
    assert_eq!(lexer.position, 1);
    assert_eq!(lexer.peek, 2);
    assert_eq!(lexer.ch, 0x2d);
}

#[test]
fn double_equals_is_one_token() {
    let mut lexer = lexer_over("==");
    assert_eq!(lexer.consume(), Some(Token::Equal));
    assert_eq!(lexer.position, 2);
    assert_eq!(lexer.consume(), Some(Token::Eof));
}

#[test]
fn bang_equals_is_one_token() {
    let mut lexer = lexer_over("!=");
    assert_eq!(lexer.consume(), Some(Token::NotEqual));
    assert_eq!(lexer.position, 2);
    assert_eq!(lexer.consume(), Some(Token::Eof));
}

#[test]
fn triple_equals_is_equal_then_assign() {
    let mut lexer = lexer_over("===");
    assert_eq!(lexer.consume(), Some(Token::Equal));
    assert_eq!(lexer.consume(), Some(Token::Assign));
    assert_eq!(lexer.consume(), Some(Token::Eof));
}

#[test]
fn lone_assign_and_lone_bang() {
    assert_eq!(single("="), (Token::Assign, 1));
    assert_eq!(single("=+"), (Token::Assign, 1));
    assert_eq!(single("= ="), (Token::Assign, 1));
    assert_eq!(single("!"), (Token::Bang, 1));
    assert_eq!(single("!!"), (Token::Bang, 1));
    assert_eq!(single("!x"), (Token::Bang, 1));
}

#[test]
fn every_keyword() {
    assert_eq!(single("fn"), (Token::Function, 2));
    assert_eq!(single("let"), (Token::Let, 3));
    assert_eq!(single("true"), (Token::True, 4));
    assert_eq!(single("false"), (Token::False, 5));
    assert_eq!(single("if"), (Token::If, 2));
    assert_eq!(single("else"), (Token::Else, 4));
    assert_eq!(single("return"), (Token::Return, 6));
}

#[test]
fn keyword_must_be_the_whole_run() {
    assert_eq!(single("lets"), (Token::Ident("lets".to_string()), 4));
    assert_eq!(single("le"), (Token::Ident("le".to_string()), 2));
    assert_eq!(single("fn_"), (Token::Ident("fn_".to_string()), 3));
    assert_eq!(single("Let"), (Token::Ident("Let".to_string()), 3));
    assert_eq!(single("returns"), (Token::Ident("returns".to_string()), 7));
    assert_eq!(single("_if"), (Token::Ident("_if".to_string()), 3));
}

#[test]
fn identifier_takes_letters_and_underscores() {
    assert_eq!(single("foo_Bar baz"), (Token::Ident("foo_Bar".to_string()), 7));
    assert_eq!(single("_"), (Token::Ident("_".to_string()), 1));
    assert_eq!(single("azAZ_"), (Token::Ident("azAZ_".to_string()), 5));
}

#[test]
fn digit_ends_an_identifier() {
    let mut lexer = lexer_over("x1y");
    assert_eq!(lexer.consume(), Some(Token::Ident("x".to_string())));
    assert_eq!(lexer.position, 1);
    assert_eq!(lexer.consume(), Some(Token::Int("1".to_string())));
    assert_eq!(lexer.position, 2);
    assert_eq!(lexer.consume(), Some(Token::Ident("y".to_string())));
    assert_eq!(lexer.position, 3);
}

#[test]
fn keyword_before_digit() {
    let mut lexer = lexer_over("let5");
    assert_eq!(lexer.consume(), Some(Token::Let));
    assert_eq!(lexer.consume(), Some(Token::Int("5".to_string())));
}

#[test]
fn integer_keeps_its_text() {
    assert_eq!(single("007"), (Token::Int("007".to_string()), 3));
    assert_eq!(single("0"), (Token::Int("0".to_string()), 1));
    assert_eq!(single("0123456789"), (Token::Int("0123456789".to_string()), 10));
    assert_eq!(
        single("340282366920938463463374607431768211456;"),
        (Token::Int("340282366920938463463374607431768211456".to_string()), 39)
    );
}

#[test]
fn letter_ends_an_integer() {
    let mut lexer = lexer_over("12ab");
    assert_eq!(lexer.consume(), Some(Token::Int("12".to_string())));
    assert_eq!(lexer.position, 2);
    assert_eq!(lexer.consume(), Some(Token::Ident("ab".to_string())));
    assert_eq!(lexer.position, 4);
}

#[test]
fn empty_input_is_eof_forever() {
    let mut lexer = lexer_over("");
    for _ in 0..10 {
        assert_eq!(lexer.consume(), Some(Token::Eof));
    }
}

#[test]
fn eof_repeats_after_last_token() {
    let mut lexer = lexer_over("x");
    assert_eq!(lexer.consume(), Some(Token::Ident("x".to_string())));
    for _ in 0..100 {
        assert_eq!(lexer.consume(), Some(Token::Eof));
        assert_eq!(lexer.ch, 0);
        assert!(lexer.position >= 1);
    }
}

#[test]
fn eof_moves_cursor_one_on() {
    let mut lexer = lexer_over("");
    assert_eq!(lexer.consume(), Some(Token::Eof));
    assert_eq!(lexer.position, 1);
    assert_eq!(lexer.peek, 2);
    assert_eq!(lexer.consume(), Some(Token::Eof));
    assert_eq!(lexer.position, 2);
    assert_eq!(lexer.peek, 3);
}

#[test]
fn cursor_stops_at_largest_index() {
    let mut lexer = Lexer { input: Vec::new(), position: usize::MAX - 1, peek: usize::MAX, ch: 0 };
    assert_eq!(lexer.consume(), Some(Token::Eof));
    assert_eq!(lexer.position, usize::MAX);
    assert_eq!(lexer.peek, usize::MAX);
    assert_eq!(lexer.consume(), Some(Token::Eof));
    assert_eq!(lexer.position, usize::MAX);
    assert_eq!(lexer.peek, usize::MAX);
}

#[test]
fn unrecognised_bytes_are_illegal() {
    assert_eq!(single("@"), (Token::Illegal, 1));
    assert_eq!(single("#"), (Token::Illegal, 1));
    assert_eq!(single("$"), (Token::Illegal, 1));
    assert_eq!(single("\""), (Token::Illegal, 1));
    assert_eq!(single("["), (Token::Illegal, 1));
    assert_eq!(single("\u{7f}"), (Token::Illegal, 1));
}

#[test]
fn scanning_goes_on_after_illegal() {
    let mut lexer = lexer_over("@x");
    assert_eq!(lexer.consume(), Some(Token::Illegal));
    assert_eq!(lexer.position, 1);
    assert_eq!(lexer.consume(), Some(Token::Ident("x".to_string())));
    assert_eq!(lexer.consume(), Some(Token::Eof));
}

#[test]
fn bytes_of_a_wide_character_are_illegal() {
    let mut lexer = lexer_over("é");
    assert_eq!(lexer.consume(), Some(Token::Illegal));
    assert_eq!(lexer.position, 1);
    assert_eq!(lexer.consume(), Some(Token::Illegal));
    assert_eq!(lexer.position, 2);
    assert_eq!(lexer.consume(), Some(Token::Eof));
}

#[test]
fn nul_byte_reads_as_eof_and_is_passed() {
    let mut lexer = lexer_over("a\0b");
    assert_eq!(lexer.consume(), Some(Token::Ident("a".to_string())));
    assert_eq!(lexer.consume(), Some(Token::Eof));
    assert_eq!(lexer.position, 2);
    assert_eq!(lexer.consume(), Some(Token::Ident("b".to_string())));
    assert_eq!(lexer.consume(), Some(Token::Eof));
}

#[test]
fn one_whitespace_byte_is_skipped() {
    assert_eq!(single(" +"), (Token::Plus, 2));
    assert_eq!(single("\t+"), (Token::Plus, 2));
    assert_eq!(single("\n+"), (Token::Plus, 2));
    assert_eq!(single("\r+"), (Token::Plus, 2));
}

#[test]
fn whitespace_before_the_end() {
    let mut lexer = lexer_over(" ");
    assert_eq!(lexer.consume(), Some(Token::Eof));
    assert_eq!(lexer.position, 2);
    assert_eq!(lexer.consume(), Some(Token::Eof));
}

#[test]
fn line_break_of_two_bytes() {
    let mut lexer = lexer_over("a\r\nb");
    assert_eq!(lexer.consume(), Some(Token::Ident("a".to_string())));
    assert_eq!(lexer.consume(), Some(Token::Illegal));
    assert_eq!(lexer.position, 3);
    assert_eq!(lexer.consume(), Some(Token::Ident("b".to_string())));
}

#[test]
fn form_feed_is_not_skipped() {
    assert_eq!(single("\u{c}+"), (Token::Illegal, 1));
}

#[test]
fn whitespace_splits_operator() {
    let mut lexer = lexer_over("= =");
    assert_eq!(lexer.consume(), Some(Token::Assign));
    assert_eq!(lexer.consume(), Some(Token::Assign));
    assert_eq!(lexer.position, 3);
    assert_eq!(lexer.consume(), Some(Token::Eof));
}

#[test]
fn consume_leaves_input_unchanged() {
    let mut lexer = lexer_over("let x = 1;");
    let before = lexer.input.clone();
    for _ in 0..8 {
        lexer.consume();
        assert_eq!(lexer.input, before);
    }
}

#[test]
fn tokens_compare_by_variant_and_text() {
    assert_eq!(Token::Ident("a".to_string()), Token::Ident("a".to_string()));
    assert_ne!(Token::Ident("a".to_string()), Token::Ident("b".to_string()));
    assert_ne!(Token::Ident("1".to_string()), Token::Int("1".to_string()));
    assert_ne!(Token::Assign, Token::Equal);
    assert_eq!(format!("{:?}", Token::Int("5".to_string())), "Int(\"5\")");
    assert_eq!(format!("{:?}", Token::Eof), "Eof");
}
