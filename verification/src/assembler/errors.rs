//! What the front end reports about a source it cannot read.

use vstd::prelude::*;
use crate::assembler::position::Rpos;

verus! {

/// The kind of a parse error.
#[derive(Debug, Clone, Copy, PartialEq, Eq, Structural)]
pub enum EmberParseErrorType {
    /// A character stands where it cannot.
    UnexpectedChar,
    /// A character that had to follow is missing.
    NoExpectedChar,
    /// A number literal is larger than a 64-bit signed integer.
    NumberOutOfRange,
}

/// A parse error with the place it was found at.
#[derive(Debug, Clone)]
pub struct EmberParseError {
    msg: String,
    help_msg: String,
    file_name: String,
    position: Rpos,
    kind: EmberParseErrorType,
}

/// A parse error as a mathematical value.
pub struct EmberParseErrorView {
    pub msg: Seq<char>,
    pub help_msg: Seq<char>,
    pub file_name: Seq<char>,
    pub position: Rpos,
    pub kind: EmberParseErrorType,
}

impl View for EmberParseError {
    type V = EmberParseErrorView;

    closed spec fn view(&self) -> EmberParseErrorView {
        EmberParseErrorView {
            msg: self.msg@,
            help_msg: self.help_msg@,
            file_name: self.file_name@,
            position: self.position,
            kind: self.kind,
        }
    }
}

impl EmberParseError {
    /// An error of kind `k` found at `pos` in the file `fname`.
    pub fn new(
        message: String,
        help_message: String,
        fname: String,
        pos: Rpos,
        k: EmberParseErrorType,
    ) -> (e: EmberParseError)
        ensures
            e@ == (EmberParseErrorView {
                msg: message@,
                help_msg: help_message@,
                file_name: fname@,
                position: pos,
                kind: k,
            }),
    {
        Self { msg: message, help_msg: help_message, file_name: fname, position: pos, kind: k }
    }

    /// What went wrong.
    pub fn message(&self) -> (s: &String)
        ensures
            s@ == self@.msg,
    {
        &self.msg
    }

    /// What may mend it.
    pub fn help_message(&self) -> (s: &String)
        ensures
            s@ == self@.help_msg,
    {
        &self.help_msg
    }

    /// The file the error was found in.
    pub fn file_name(&self) -> (s: &String)
        ensures
            s@ == self@.file_name,
    {
        &self.file_name
    }

    /// The place the error was found at.
    pub fn position(&self) -> (p: Rpos)
        ensures
            p == self@.position,
    {
        self.position
    }

    /// The kind of the error.
    pub fn kind(&self) -> (k: EmberParseErrorType)
        ensures
            k == self@.kind,
    {
        self.kind
    }
}

} // verus!
