//! The lexical front end of the textual assembly language.

pub mod chars;
pub mod errors;
pub mod keywords;
pub mod lex;
pub mod parser;
pub mod position;
pub mod tokenizer;
pub mod tokens;
