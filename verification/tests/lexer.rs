use ember_vm::assembler::errors::{EmberParseError, EmberParseErrorType};
use ember_vm::assembler::keywords::Keywords;
use ember_vm::assembler::parser::{Parser, Program, Sb};
use ember_vm::assembler::position::Rpos;
use ember_vm::assembler::chars::{
    digit_value, is_blank, is_decimal_digit, is_identifier_part, is_identifier_start,
};
use ember_vm::assembler::tokenizer::Tokenizer;
use ember_vm::assembler::tokens::{
    Delimiter, Identifier, Instruction, Literal, Op, Special, Token, TokenType,
};

fn lexer(src: &str) -> Tokenizer {
    Tokenizer::new(&src.to_string(), "test.ember".to_string())
}

fn all_tokens(src: &str) -> Vec<Token> {
    let mut t = lexer(src);
    let mut out = Vec::new();
    loop {
        match t.next_token() {
            Ok(Some(token)) => out.push(token),
            Ok(None) => return out,
            Err(e) => panic!("unexpected error: {}", e.message()),
        }
    }
}

fn token(typ: TokenType, literal: &str) -> Token {
    Token { typ, literal: literal.to_string() }
}

fn label(name: &str) -> Token {
    token(TokenType::Label(Identifier { name: name.to_string() }), name)
}

fn number(n: i64, literal: &str) -> Token {
    token(TokenType::Number(Literal::Number(n)), literal)
}

#[test]
fn empty_source_has_no_tokens() {
    assert!(all_tokens("").is_empty());
    assert!(all_tokens("   \t \r ").is_empty());
    let mut t = lexer("");
    assert_eq!(t.next_token().unwrap(), None);
    assert_eq!(t.next_token().unwrap(), None);
}

#[test]
fn every_keyword_is_an_instruction() {
    let words = [
        ("push", Instruction::Push),
        ("pop", Instruction::Pop),
        ("dup", Instruction::Dup),
        ("swap", Instruction::Swap),
        ("add", Instruction::Add),
        ("sub", Instruction::Sub),
        ("mul", Instruction::Mul),
        ("div", Instruction::Div),
        ("jmp", Instruction::Jmp),
        ("jz", Instruction::Jz),
        ("jnz", Instruction::Jnz),
        ("call", Instruction::Call),
        ("trap", Instruction::Trap),
    ];
    let table = Keywords::new();
    for (word, instr) in words {
        assert_eq!(all_tokens(word), vec![token(TokenType::Instruction(instr), word)]);
        assert_eq!(table.lookup(word), Some(instr));
    }
    assert_eq!(table.lookup("halt"), None);
    assert_eq!(table.lookup(""), None);
    assert_eq!(table.lookup("PUSH"), None);
    assert_eq!(table.lookup("pushx"), None);
}

#[test]
fn other_words_are_labels() {
    assert_eq!(
        all_tokens("loop_1 Push _x pushy"),
        vec![label("loop_1"), label("Push"), label("_x"), label("pushy")]
    );
}

#[test]
fn words_run_through_unicode_letters() {
    assert_eq!(all_tokens("caf\u{e9}9 x"), vec![label("caf\u{e9}9"), label("x")]);
}

#[test]
fn numbers_are_decimal() {
    assert_eq!(
        all_tokens("0 42 007 9223372036854775807"),
        vec![
            number(0, "0"),
            number(42, "42"),
            number(7, "007"),
            number(i64::MAX, "9223372036854775807"),
        ]
    );
}

#[test]
fn a_number_ends_where_the_digits_end() {
    assert_eq!(all_tokens("12ab"), vec![number(12, "12"), label("ab")]);
    assert_eq!(
        all_tokens("1+2"),
        vec![number(1, "1"), token(TokenType::Operator(Op::Plus), "+"), number(2, "2")]
    );
}

#[test]
fn a_number_too_large_is_an_error() {
    let mut t = lexer("push\n  9223372036854775808 pop");
    assert!(t.next_token().unwrap().is_some());
    assert!(t.next_token().unwrap().is_some());
    let e = t.next_token().unwrap_err();
    assert_eq!(e.kind(), EmberParseErrorType::NumberOutOfRange);
    assert_eq!(e.file_name(), "test.ember");
    assert_eq!(e.position(), Rpos { ln: 2, col: 3 });
    assert_eq!(e.message(), "number literal out of range");
    assert_eq!(e.help_message(), "a number must fit in a 64-bit signed integer");
    assert_eq!(
        t.next_token().unwrap(),
        Some(token(TokenType::Instruction(Instruction::Pop), "pop"))
    );
    assert_eq!(t.next_token().unwrap(), None);

    let mut t = lexer("99999999999999999999999999999999999999999999");
    assert!(t.next_token().is_err());
    assert_eq!(t.next_token().unwrap(), None);
    let mut t = lexer("00000000000000000000000000000000000000000001");
    assert_eq!(
        t.next_token().unwrap(),
        Some(number(1, "00000000000000000000000000000000000000000001"))
    );
}

#[test]
fn strings_lose_their_quotes() {
    assert_eq!(
        all_tokens("\"hello world\" \"\""),
        vec![
            token(TokenType::String(Literal::String("hello world".to_string())), "hello world"),
            token(TokenType::String(Literal::String(String::new())), ""),
        ]
    );
}

#[test]
fn an_open_string_runs_to_the_end() {
    assert_eq!(
        all_tokens("\"abc\ndef"),
        vec![token(TokenType::String(Literal::String("abc\ndef".to_string())), "abc\ndef")]
    );
    assert_eq!(
        all_tokens("\""),
        vec![token(TokenType::String(Literal::String(String::new())), "")]
    );
}

#[test]
fn signs_are_tokens_by_themselves() {
    assert_eq!(
        all_tokens(":,+-*/"),
        vec![
            token(TokenType::Delimiter(Delimiter::Colon), ":"),
            token(TokenType::Delimiter(Delimiter::Comma), ","),
            token(TokenType::Operator(Op::Plus), "+"),
            token(TokenType::Operator(Op::Minus), "-"),
            token(TokenType::Operator(Op::Multiply), "*"),
            token(TokenType::Operator(Op::Divide), "/"),
        ]
    );
}

#[test]
fn a_line_break_is_a_token_and_other_white_space_is_not() {
    assert_eq!(
        all_tokens(" \t\n \u{a0}\n"),
        vec![
            token(TokenType::Special(Special::Eol), "\n"),
            token(TokenType::Special(Special::Eol), "\n"),
        ]
    );
}

#[test]
fn unknown_characters_read_as_eof() {
    assert_eq!(
        all_tokens("@ \u{e9}"),
        vec![
            token(TokenType::Special(Special::Eof), "@"),
            token(TokenType::Special(Special::Eof), "\u{e9}"),
        ]
    );
}

#[test]
fn a_line_of_assembly() {
    assert_eq!(
        all_tokens("start: push 10, r1\n  jnz start"),
        vec![
            label("start"),
            token(TokenType::Delimiter(Delimiter::Colon), ":"),
            token(TokenType::Instruction(Instruction::Push), "push"),
            number(10, "10"),
            token(TokenType::Delimiter(Delimiter::Comma), ","),
            label("r1"),
            token(TokenType::Special(Special::Eol), "\n"),
            token(TokenType::Instruction(Instruction::Jnz), "jnz"),
            label("start"),
        ]
    );
}

#[test]
fn read_char_and_peek_char_walk_the_source() {
    let mut t = lexer("ab");
    assert_eq!(t.peek_char(), Some('b'));
    t.read_char();
    assert_eq!(t.peek_char(), None);
    assert_eq!(t.next_token().unwrap(), Some(label("b")));
    t.read_char();
    assert_eq!(t.peek_char(), None);
    assert_eq!(t.next_token().unwrap(), None);
    let mut t = lexer("");
    assert_eq!(t.peek_char(), None);
    t.read_char();
    assert_eq!(t.peek_char(), None);
}

#[test]
fn position_starts_at_line_one_column_zero() {
    assert_eq!(Rpos::new(), Rpos { ln: 1, col: 0 });
}

#[test]
fn position_advances_by_character() {
    let mut p = Rpos::new();
    p.advance(Some('a'));
    assert_eq!(p, Rpos { ln: 1, col: 1 });
    p.advance(None);
    assert_eq!(p, Rpos { ln: 1, col: 1 });
    p.advance(Some('\n'));
    assert_eq!(p, Rpos { ln: 2, col: 0 });
    p.advance(Some(' '));
    p.advance(Some('\u{e9}'));
    assert_eq!(p, Rpos { ln: 2, col: 2 });
}

#[test]
fn character_classes() {
    assert!(is_blank(' ', true));
    assert!(!is_blank('\n', true));
    assert!(!is_blank('a', false));
    assert!(is_identifier_part('_', false));
    assert!(is_identifier_part('a', true));
    assert!(!is_identifier_part('-', false));
    for c in ['a', 'z', 'A', 'Z', '_'] {
        assert!(is_identifier_start(c));
    }
    for c in ['0', '9', '`', '{', '@', '[', ' ', '\u{e9}'] {
        assert!(!is_identifier_start(c));
    }
    for (c, v) in [('0', 0u8), ('5', 5), ('9', 9)] {
        assert!(is_decimal_digit(c));
        assert_eq!(digit_value(c), v);
    }
    for c in ['/', ':', 'a', '\u{661}'] {
        assert!(!is_decimal_digit(c));
    }
}

#[test]
fn parse_error_keeps_what_it_was_given() {
    let e = EmberParseError::new(
        "bad".to_string(),
        "try again".to_string(),
        "a.ember".to_string(),
        Rpos { ln: 3, col: 7 },
        EmberParseErrorType::UnexpectedChar,
    );
    assert_eq!(e.message(), "bad");
    assert_eq!(e.help_message(), "try again");
    assert_eq!(e.file_name(), "a.ember");
    assert_eq!(e.position(), Rpos { ln: 3, col: 7 });
    assert_eq!(e.kind(), EmberParseErrorType::UnexpectedChar);
    let e = EmberParseError::new(
        String::new(),
        String::new(),
        String::new(),
        Rpos::new(),
        EmberParseErrorType::NoExpectedChar,
    );
    assert_eq!(e.kind(), EmberParseErrorType::NoExpectedChar);
}

#[test]
fn string_builder_joins_with_a_trailing_separator() {
    let mut sb = Sb::new(',');
    assert_eq!(sb.result(), "");
    sb.write_string("a".to_string());
    assert_eq!(sb.result(), "a,");
    sb.write_string(String::new());
    sb.write_string("bc".to_string());
    assert_eq!(sb.result(), "a,,bc,");
    assert_eq!(sb.result(), "a,,bc,");
}

#[test]
fn program_text_is_empty() {
    assert_eq!(Program::string(), "");
}

#[test]
fn parser_collects_errors() {
    let t = lexer("push 1");
    let mut p = Parser::new(&t);
    assert_eq!(p.position(), Rpos { ln: 1, col: 0 });
    assert!(p.errors().is_empty());
    p.error(EmberParseError::new(
        "m".to_string(),
        "h".to_string(),
        "f".to_string(),
        Rpos::new(),
        EmberParseErrorType::UnexpectedChar,
    ));
    p.error(EmberParseError::new(
        "n".to_string(),
        "h".to_string(),
        "f".to_string(),
        Rpos { ln: 2, col: 4 },
        EmberParseErrorType::NoExpectedChar,
    ));
    assert_eq!(p.errors().len(), 2);
    assert_eq!(p.errors()[0].kind(), EmberParseErrorType::UnexpectedChar);
    assert_eq!(p.errors()[1].message(), "n");
    assert_eq!(p.errors()[1].position(), Rpos { ln: 2, col: 4 });
    assert_eq!(p.position(), Rpos { ln: 1, col: 0 });
}
