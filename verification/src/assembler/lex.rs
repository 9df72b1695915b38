//! What the lexer computes, as mathematics over the source text.
//!
//! `lex` says, for a source and an offset into it, which token stands there
//! and where the next one is looked for.

use vstd::prelude::*;
use crate::assembler::chars::{
    blank, decimal_digit, decimal_value, identifier_part, identifier_start,
};
use crate::assembler::errors::{EmberParseErrorType, EmberParseErrorView};
use crate::assembler::keywords::keyword;
use crate::assembler::position::rpos_at;
use crate::assembler::tokens::{
    Delimiter, LiteralView, Op, Special, TokenTypeView, TokenView,
};

verus! {

/// A stretch of like characters that the lexer reads in one go.
pub enum Run {
    /// White space between tokens on a line.
    Blank,
    /// The characters of an identifier.
    Word,
    /// Decimal digits.
    Digits,
    /// The inside of a string literal: anything but the closing quote.
    Quoted,
}

/// Whether `c` belongs to a run of kind `run`.
pub open spec fn in_run(run: Run, c: char) -> bool {
    match run {
        Run::Blank => blank(c),
        Run::Word => identifier_part(c),
        Run::Digits => decimal_digit(c),
        Run::Quoted => c != '"',
    }
}

/// Where the run of kind `run` that starts at `at` ends: the first offset
/// from `at` on whose character is not of the run, or the end of the source.
pub open spec fn run_end(src: Seq<char>, at: int, run: Run) -> int
    decreases src.len() - at,
{
    if 0 <= at < src.len() && in_run(run, src[at]) {
        run_end(src, at + 1, run)
    } else {
        at
    }
}

/// The token that a character outside names, numbers and strings makes by
/// itself. A character the language does not know reads as `Eof`.
pub open spec fn sign(c: char) -> TokenTypeView {
    if c == ':' {
        TokenTypeView::Delimiter(Delimiter::Colon)
    } else if c == ',' {
        TokenTypeView::Delimiter(Delimiter::Comma)
    } else if c == '+' {
        TokenTypeView::Operator(Op::Plus)
    } else if c == '-' {
        TokenTypeView::Operator(Op::Minus)
    } else if c == '*' {
        TokenTypeView::Operator(Op::Multiply)
    } else if c == '/' {
        TokenTypeView::Operator(Op::Divide)
    } else if c == '\n' {
        TokenTypeView::Special(Special::Eol)
    } else {
        TokenTypeView::Special(Special::Eof)
    }
}

/// What a word is: the mnemonic it spells, or else a label.
pub open spec fn word_type(word: Seq<char>) -> TokenTypeView {
    match keyword(word) {
        Some(instr) => TokenTypeView::Instruction(instr),
        None => TokenTypeView::Label(word),
    }
}

/// What the lexer finds at an offset.
pub enum Lexed {
    /// Nothing but blanks up to the end of the source.
    End,
    /// A token.
    Token(TokenView),
    /// A number that no 64-bit signed integer holds, which starts at this
    /// offset.
    NumberOutOfRange(int),
}

/// The token that stands at offset `at` of `src`, after any blanks, and the
/// offset at which to look for the next.
///
/// Blanks are skipped. Then a letter or underscore opens a word, which runs
/// on through letters, numbers and underscores; a digit opens a number, which
/// runs on through digits; a double quote opens a string, which runs up to
/// the next double quote or, failing one, to the end of the source, the
/// quotes being no part of its text; any other character is a token by
/// itself.
pub open spec fn lex(src: Seq<char>, at: int) -> (Lexed, int) {
    let start = run_end(src, at, Run::Blank);
    if start >= src.len() {
        (Lexed::End, start)
    } else if identifier_start(src[start]) {
        let end = run_end(src, start, Run::Word);
        let word = src.subrange(start, end);
        (Lexed::Token(TokenView { typ: word_type(word), literal: word }), end)
    } else if decimal_digit(src[start]) {
        let end = run_end(src, start, Run::Digits);
        let digits = src.subrange(start, end);
        if decimal_value(digits) <= i64::MAX {
            (
                Lexed::Token(
                    TokenView {
                        typ: TokenTypeView::Number(
                            LiteralView::Number(decimal_value(digits) as i64),
                        ),
                        literal: digits,
                    },
                ),
                end,
            )
        } else {
            (Lexed::NumberOutOfRange(start), end)
        }
    } else if src[start] == '"' {
        let close = run_end(src, start + 1, Run::Quoted);
        let text = src.subrange(start + 1, close);
        (
            Lexed::Token(
                TokenView { typ: TokenTypeView::String(LiteralView::String(text)), literal: text },
            ),
            if close < src.len() {
                close + 1
            } else {
                close
            },
        )
    } else {
        (
            Lexed::Token(
                TokenView { typ: sign(src[start]), literal: src.subrange(start, start + 1) },
            ),
            start + 1,
        )
    }
}

/// The error that reports a number too large, found at `at` in `src`, which
/// was read from the file `file_path`.
pub open spec fn number_error(
    file_path: Seq<char>,
    src: Seq<char>,
    at: int,
) -> EmberParseErrorView {
    EmberParseErrorView {
        msg: "number literal out of range"@,
        help_msg: "a number must fit in a 64-bit signed integer"@,
        file_name: file_path,
        position: rpos_at(src, at),
        kind: EmberParseErrorType::NumberOutOfRange,
    }
}

/// A run ends at or after its start and within the source.
pub proof fn lemma_run_end_bounds(src: Seq<char>, at: int, run: Run)
    requires
        0 <= at <= src.len(),
    ensures
        at <= run_end(src, at, run) <= src.len(),
    decreases src.len() - at,
{
    if at < src.len() && in_run(run, src[at]) {
        lemma_run_end_bounds(src, at + 1, run);
    }
}

/// The lexer never goes back and never leaves the source: the offset at
/// which to look for the next token lies between the one it started from
/// and the end.
pub proof fn lemma_lex_bounds(src: Seq<char>, at: int)
    requires
        0 <= at <= src.len(),
    ensures
        at <= lex(src, at).1 <= src.len(),
{
    lemma_run_end_bounds(src, at, Run::Blank);
    let start = run_end(src, at, Run::Blank);
    if start < src.len() {
        lemma_run_end_bounds(src, start, Run::Word);
        lemma_run_end_bounds(src, start, Run::Digits);
        lemma_run_end_bounds(src, start + 1, Run::Quoted);
    }
}

/// Every character of a run is of the run's kind, and the run stops only at
/// the end of the source or before a character that is not.
pub proof fn lemma_run_is_maximal(src: Seq<char>, at: int, run: Run)
    requires
        0 <= at <= src.len(),
    ensures
        forall|i: int| at <= i < run_end(src, at, run) ==> in_run(run, #[trigger] src[i]),
        run_end(src, at, run) == src.len() || !in_run(run, src[run_end(src, at, run)]),
    decreases src.len() - at,
{
    if at < src.len() && in_run(run, src[at]) {
        lemma_run_is_maximal(src, at + 1, run);
    }
}

/// Once only blanks are left, the lexer stays at the end: asked again, it
/// finds the end again.
pub proof fn lemma_end_is_final(src: Seq<char>, at: int)
    requires
        0 <= at <= src.len(),
        lex(src, at).0 is End,
    ensures
        lex(src, lex(src, at).1) == (Lexed::End, lex(src, at).1),
{
    lemma_run_end_bounds(src, at, Run::Blank);
}

} // verus!
