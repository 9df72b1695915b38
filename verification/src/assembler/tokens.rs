//! The tokens of the assembly language.

use vstd::prelude::*;

verus! {

/// A name written in the source: a label or a register.
#[derive(Debug, Clone, PartialEq, Eq)]
pub struct Identifier {
    pub name: String,
}

impl View for Identifier {
    type V = Seq<char>;

    open spec fn view(&self) -> Seq<char> {
        self.name@
    }
}

/// A mnemonic of the language.
#[derive(Debug, Clone, Copy, PartialEq, Eq, Structural)]
pub enum Instruction {
    Push,
    Pop,
    Dup,
    Swap,
    Add,
    Sub,
    Mul,
    Div,
    Jmp,
    Jz,
    Jnz,
    Call,
    Trap,
}

/// A literal value written in the source.
#[derive(Debug, Clone, PartialEq, Eq)]
pub enum Literal {
    String(String),
    Number(i64),
}

/// A literal as a mathematical value.
pub enum LiteralView {
    String(Seq<char>),
    Number(i64),
}

impl View for Literal {
    type V = LiteralView;

    open spec fn view(&self) -> LiteralView {
        match self {
            Literal::String(s) => LiteralView::String(s@),
            Literal::Number(n) => LiteralView::Number(*n),
        }
    }
}

/// An operator sign.
#[derive(Debug, Clone, Copy, PartialEq, Eq, Structural)]
pub enum Op {
    Plus,
    Minus,
    Multiply,
    Divide,
    StrLen,
}

/// A punctuation sign.
#[derive(Debug, Clone, Copy, PartialEq, Eq, Structural)]
pub enum Delimiter {
    Comma,
    Colon,
}

/// A token that stands for no text of its own.
#[derive(Debug, Clone, Copy, PartialEq, Eq, Structural)]
pub enum Special {
    Eol,
    Eof,
}

/// What a token is.
#[derive(Debug, Clone, PartialEq, Eq)]
pub enum TokenType {
    Label(Identifier),
    Instruction(Instruction),
    Register(Identifier),
    Delimiter(Delimiter),
    String(Literal),
    Number(Literal),
    Operator(Op),
    Special(Special),
}

/// A token type as a mathematical value.
pub enum TokenTypeView {
    Label(Seq<char>),
    Instruction(Instruction),
    Register(Seq<char>),
    Delimiter(Delimiter),
    String(LiteralView),
    Number(LiteralView),
    Operator(Op),
    Special(Special),
}

impl View for TokenType {
    type V = TokenTypeView;

    open spec fn view(&self) -> TokenTypeView {
        match self {
            TokenType::Label(id) => TokenTypeView::Label(id@),
            TokenType::Instruction(i) => TokenTypeView::Instruction(*i),
            TokenType::Register(id) => TokenTypeView::Register(id@),
            TokenType::Delimiter(d) => TokenTypeView::Delimiter(*d),
            TokenType::String(l) => TokenTypeView::String(l@),
            TokenType::Number(l) => TokenTypeView::Number(l@),
            TokenType::Operator(op) => TokenTypeView::Operator(*op),
            TokenType::Special(s) => TokenTypeView::Special(*s),
        }
    }
}

/// A token: what it is, and the text it was read from.
#[derive(Debug, Clone, PartialEq, Eq)]
pub struct Token {
    pub typ: TokenType,
    pub literal: String,
}

/// A token as a mathematical value.
pub struct TokenView {
    pub typ: TokenTypeView,
    pub literal: Seq<char>,
}

impl View for Token {
    type V = TokenView;

    open spec fn view(&self) -> TokenView {
        TokenView { typ: self.typ@, literal: self.literal@ }
    }
}

} // verus!
