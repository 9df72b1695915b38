//! The lexer: turns source text into tokens.
//!
//! `Tokenizer::next_token` is proved to compute `lex` at the lexer's
//! offset.

use vstd::prelude::*;
use crate::assembler::chars::{
    char_is_alphanumeric, char_is_whitespace, decimal_value, digit_value, is_blank,
    is_decimal_digit, is_identifier_part, is_identifier_start,
};
use crate::assembler::errors::{EmberParseError, EmberParseErrorType};
use crate::assembler::keywords::Keywords;
use crate::assembler::lex::{lex, number_error, run_end, sign, word_type, Lexed, Run};
use crate::assembler::position::{lemma_rpos_bounded, rpos_at, Rpos};
use crate::assembler::tokens::{
    Delimiter, Identifier, Literal, LiteralView, Op, Special, Token, TokenType, TokenTypeView,
};

verus! {

/// A lexer over one source text.
pub struct Tokenizer {
    src: Vec<char>,
    ch: Option<char>,
    file_path: String,
    position: usize,
    pos: Rpos,
    keywords: Keywords,
}

impl Tokenizer {
    /// The source text.
    pub closed spec fn source(&self) -> Seq<char> {
        self.src@
    }

    /// The name of the file the source was read from.
    pub closed spec fn path(&self) -> Seq<char> {
        self.file_path@
    }

    /// The offset, in characters, at which the lexer stands.
    pub closed spec fn offset(&self) -> int {
        self.position as int
    }

    /// The lexer stands within its source or at its end, and knows the
    /// character and the place there.
    pub closed spec fn wf(&self) -> bool {
        &&& self.position <= self.src@.len()
        &&& self.ch == (if self.position < self.src@.len() {
            Some(self.src@[self.position as int])
        } else {
            None
        })
        &&& self.pos == rpos_at(self.src@, self.position as int)
        &&& self.keywords.complete()
    }

    /// Whether this lexer is `from` moved to another offset: same source,
    /// same file.
    pub open spec fn moved_from(&self, from: &Tokenizer) -> bool {
        &&& self.wf()
        &&& self.source() == from.source()
        &&& self.path() == from.path()
    }

    /// A lexer at the start of `src`, which was read from `file_path`.
    pub fn new(src: &String, file_path: String) -> (t: Tokenizer)
        ensures
            t.wf(),
            t.source() == src@,
            t.path() == file_path@,
            t.offset() == 0,
    {
        let mut chars: Vec<char> = Vec::new();
        for c in iter: src.as_str().chars()
            invariant
                chars@ == iter.seq().take(iter.index() as int),
                iter.seq() == src@,
        {
            chars.push(c);
        }
        let ch: Option<char> = if chars.len() > 0 {
            Some(chars[0])
        } else {
            None
        };
        Tokenizer {
            src: chars,
            ch,
            file_path,
            position: 0,
            pos: Rpos::new(),
            keywords: Keywords::new(),
        }
    }

    /// Moves to the next character. At the end of the source the lexer stays
    /// where it is.
    pub fn read_char(&mut self)
        requires
            old(self).wf(),
        ensures
            final(self).moved_from(old(self)),
            final(self).offset() == (if old(self).offset() < old(self).source().len() {
                old(self).offset() + 1
            } else {
                old(self).offset()
            }),
    {
        if self.position < self.src.len() {
            proof {
                lemma_rpos_bounded(self.src@, self.position as int);
            }
            self.position += 1;
            self.ch = if self.position < self.src.len() {
                Some(self.src[self.position])
            } else {
                None
            };
            self.pos.advance(self.ch);
        }
    }

    /// The character after the one the lexer stands at, if there is one. The
    /// lexer does not move.
    pub fn peek_char(&mut self) -> (next: Option<char>)
        requires
            old(self).wf(),
        ensures
            final(self).moved_from(old(self)),
            final(self).offset() == old(self).offset(),
            next == (if old(self).offset() + 1 < old(self).source().len() {
                Some(old(self).source()[old(self).offset() + 1])
            } else {
                None
            }),
    {
        if self.position < self.src.len() && self.position + 1 < self.src.len() {
            Some(self.src[self.position + 1])
        } else {
            None
        }
    }

    /// The text from offset `from` up to offset `to`.
    fn slice(&self, from: usize, to: usize) -> (text: String)
        requires
            from <= to <= self.src@.len(),
        ensures
            text@ == self.src@.subrange(from as int, to as int),
    {
        let mut text = String::new();
        let mut i: usize = from;
        while i < to
            invariant
                from <= i <= to <= self.src@.len(),
                text@ == self.src@.subrange(from as int, i as int),
            decreases to - i,
        {
            text.push(self.src[i]);
            i += 1;
        }
        text
    }

    /// Moves past the blanks at the offset.
    fn skip_whitespace(&mut self)
        requires
            old(self).wf(),
        ensures
            final(self).moved_from(old(self)),
            final(self).offset() == run_end(old(self).source(), old(self).offset(), Run::Blank),
    {
        loop
            invariant
                self.moved_from(old(self)),
                old(self).offset() <= self.offset(),
                run_end(self.src@, self.position as int, Run::Blank) == run_end(
                    old(self).source(),
                    old(self).offset(),
                    Run::Blank,
                ),
            ensures
                self.position == run_end(self.src@, self.position as int, Run::Blank),
            decreases self.src@.len() - self.position,
        {
            match self.ch {
                Some(c) => {
                    if is_blank(c, char_is_whitespace(c)) {
                        self.read_char();
                    } else {
                        break ;
                    }
                },
                None => {
                    break ;
                },
            }
        }
    }

    /// Reads the word at the offset: a mnemonic if it is reserved, else a
    /// label.
    fn read_identifier(&mut self) -> (token: Token)
        requires
            old(self).wf(),
        ensures
            final(self).moved_from(old(self)),
            final(self).offset() == run_end(old(self).source(), old(self).offset(), Run::Word),
            token@.literal == old(self).source().subrange(
                old(self).offset(),
                final(self).offset(),
            ),
            token@.typ == word_type(token@.literal),
    {
        let start: usize = self.position;
        loop
            invariant
                self.moved_from(old(self)),
                start == old(self).position,
                start <= self.position,
                run_end(self.src@, self.position as int, Run::Word) == run_end(
                    old(self).source(),
                    old(self).offset(),
                    Run::Word,
                ),
            ensures
                self.position == run_end(self.src@, self.position as int, Run::Word),
            decreases self.src@.len() - self.position,
        {
            match self.ch {
                Some(c) => {
                    if is_identifier_part(c, char_is_alphanumeric(c)) {
                        self.read_char();
                    } else {
                        break ;
                    }
                },
                None => {
                    break ;
                },
            }
        }
        let literal = self.slice(start, self.position);
        match self.keywords.lookup(literal.as_str()) {
            Some(instr) => Token { typ: TokenType::Instruction(instr), literal },
            None => {
                let name = literal.clone();
                Token { typ: TokenType::Label(Identifier { name }), literal }
            },
        }
    }

    /// Reads the number at the offset. The lexer moves past all its digits
    /// whether the number fits or not.
    fn read_number(&mut self) -> (r: Result<Token, EmberParseError>)
        requires
            old(self).wf(),
        ensures
            final(self).moved_from(old(self)),
            final(self).offset() == run_end(old(self).source(), old(self).offset(), Run::Digits),
            match r {
                Ok(token) => {
                    &&& token@.literal == old(self).source().subrange(
                        old(self).offset(),
                        final(self).offset(),
                    )
                    &&& decimal_value(token@.literal) <= i64::MAX
                    &&& token@.typ == TokenTypeView::Number(
                        LiteralView::Number(decimal_value(token@.literal) as i64),
                    )
                },
                Err(e) => {
                    &&& decimal_value(
                        old(self).source().subrange(old(self).offset(), final(self).offset()),
                    ) > i64::MAX
                    &&& e@ == number_error(old(self).path(), old(self).source(), old(self).offset())
                },
            },
    {
        let start: usize = self.position;
        let at: Rpos = self.pos;
        let mut value: i64 = 0;
        let mut fits: bool = true;
        loop
            invariant
                self.moved_from(old(self)),
                start == old(self).position,
                at == old(self).pos,
                start <= self.position,
                run_end(self.src@, self.position as int, Run::Digits) == run_end(
                    old(self).source(),
                    old(self).offset(),
                    Run::Digits,
                ),
                0 <= value,
                fits ==> value == decimal_value(
                    self.src@.subrange(start as int, self.position as int),
                ),
                !fits ==> decimal_value(self.src@.subrange(start as int, self.position as int))
                    > i64::MAX,
            ensures
                self.position == run_end(self.src@, self.position as int, Run::Digits),
            decreases self.src@.len() - self.position,
        {
            match self.ch {
                Some(c) => {
                    if is_decimal_digit(c) {
                        let ghost before = self.src@.subrange(start as int, self.position as int);
                        let digit: u8 = digit_value(c);
                        if fits {
                            if value > (i64::MAX - digit as i64) / 10 {
                                fits = false;
                            } else {
                                value = value * 10 + digit as i64;
                            }
                        }
                        self.read_char();
                        proof {
                            let now = self.src@.subrange(start as int, self.position as int);
                            assert(now.drop_last() =~= before);
                        }
                    } else {
                        break ;
                    }
                },
                None => {
                    break ;
                },
            }
        }
        if fits {
            let literal = self.slice(start, self.position);
            Ok(Token { typ: TokenType::Number(Literal::Number(value)), literal })
        } else {
            Err(
                EmberParseError::new(
                    String::from_str("number literal out of range"),
                    String::from_str("a number must fit in a 64-bit signed integer"),
                    self.file_path.clone(),
                    at,
                    EmberParseErrorType::NumberOutOfRange,
                ),
            )
        }
    }

    /// Reads the string literal whose opening quote stands at the offset.
    fn read_string(&mut self) -> (token: Token)
        requires
            old(self).wf(),
            old(self).offset() < old(self).source().len(),
        ensures
            final(self).moved_from(old(self)),
            ({
                let close = run_end(old(self).source(), old(self).offset() + 1, Run::Quoted);
                &&& final(self).offset() == (if close < old(self).source().len() {
                    close + 1
                } else {
                    close
                })
                &&& token@.literal == old(self).source().subrange(old(self).offset() + 1, close)
                &&& token@.typ == TokenTypeView::String(LiteralView::String(token@.literal))
            }),
    {
        self.read_char();
        let start: usize = self.position;
        loop
            invariant
                self.moved_from(old(self)),
                start == old(self).position + 1,
                start <= self.position,
                run_end(self.src@, self.position as int, Run::Quoted) == run_end(
                    old(self).source(),
                    old(self).offset() + 1,
                    Run::Quoted,
                ),
            ensures
                self.position == run_end(self.src@, self.position as int, Run::Quoted),
            decreases self.src@.len() - self.position,
        {
            match self.ch {
                Some(c) => {
                    if c == '"' {
                        break ;
                    }
                    self.read_char();
                },
                None => {
                    break ;
                },
            }
        }
        let literal = self.slice(start, self.position);
        let text = literal.clone();
        self.read_char();
        Token { typ: TokenType::String(Literal::String(text)), literal }
    }

    /// Reads the character at the offset as a token by itself.
    fn read_sign(&mut self, c: char) -> (token: Token)
        requires
            old(self).wf(),
            old(self).offset() < old(self).source().len(),
            c == old(self).source()[old(self).offset()],
        ensures
            final(self).moved_from(old(self)),
            final(self).offset() == old(self).offset() + 1,
            token@.literal == old(self).source().subrange(
                old(self).offset(),
                old(self).offset() + 1,
            ),
            token@.typ == sign(c),
    {
        let start: usize = self.position;
        self.read_char();
        let literal = self.slice(start, self.position);
        let typ = if c == ':' {
            TokenType::Delimiter(Delimiter::Colon)
        } else if c == ',' {
            TokenType::Delimiter(Delimiter::Comma)
        } else if c == '+' {
            TokenType::Operator(Op::Plus)
        } else if c == '-' {
            TokenType::Operator(Op::Minus)
        } else if c == '*' {
            TokenType::Operator(Op::Multiply)
        } else if c == '/' {
            TokenType::Operator(Op::Divide)
        } else if c == '\n' {
            TokenType::Special(Special::Eol)
        } else {
            TokenType::Special(Special::Eof)
        };
        Token { typ, literal }
    }

    /// Reads the next token: `lex` at the lexer's offset.
    ///
    /// Returns `Ok(None)` where only blanks are left, and an error for a
    /// number that no 64-bit signed integer holds. In every case the lexer
    /// moves to the offset that `lex` gives, so that the next call reads on.
    pub fn next_token(&mut self) -> (r: Result<Option<Token>, EmberParseError>)
        requires
            old(self).wf(),
        ensures
            final(self).moved_from(old(self)),
            final(self).offset() == lex(old(self).source(), old(self).offset()).1,
            match lex(old(self).source(), old(self).offset()).0 {
                Lexed::End => r matches Ok(None),
                Lexed::Token(t) => r matches Ok(Some(token)) && token@ == t,
                Lexed::NumberOutOfRange(at) => r matches Err(e) && e@ == number_error(
                    old(self).path(),
                    old(self).source(),
                    at,
                ),
            },
    {
        self.skip_whitespace();
        match self.ch {
            Some(c) => {
                if is_identifier_start(c) {
                    Ok(Some(self.read_identifier()))
                } else if is_decimal_digit(c) {
                    match self.read_number() {
                        Ok(token) => Ok(Some(token)),
                        Err(e) => Err(e),
                    }
                } else if c == '"' {
                    Ok(Some(self.read_string()))
                } else {
                    Ok(Some(self.read_sign(c)))
                }
            },
            None => Ok(None),
        }
    }
}

} // verus!
