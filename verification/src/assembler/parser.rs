//! The parser's scaffolding: the node traits, a string builder, and the
//! parser's own state.

use vstd::prelude::*;
use crate::assembler::errors::{EmberParseError, EmberParseErrorView};
use crate::assembler::position::Rpos;
use crate::assembler::tokenizer::Tokenizer;

verus! {

/// A node of the syntax tree.
pub trait Node {
    /// The node as source text.
    fn string(&self) -> String;
}

/// A node that yields a value.
pub trait Expression {
    /// The node as source text.
    fn string(&self) -> String;

    /// The node itself, as an expression.
    fn expression_node(&self) -> Self where Self: Sized;
}

/// A node that is executed.
pub trait Statement {
    /// The node as source text.
    fn string(&self) -> String;

    /// The node itself, as a statement.
    fn statement_node(&self) -> Self where Self: Sized;
}

/// The pieces in order, each followed by the separator.
pub open spec fn joined(pieces: Seq<Seq<char>>, separator: char) -> Seq<char>
    decreases pieces.len(),
{
    if pieces.len() == 0 {
        Seq::empty()
    } else {
        joined(pieces.drop_last(), separator) + pieces.last().push(separator)
    }
}

/// A string builder: collects pieces and joins them, each followed by a
/// separator.
pub struct Sb {
    strings: Vec<String>,
    separator: char,
    append_count: usize,
}

impl Sb {
    /// The pieces written so far, in order.
    pub closed spec fn pieces(&self) -> Seq<Seq<char>> {
        Seq::new(self.strings@.len(), |i: int| self.strings@[i]@)
    }

    /// The character that follows each piece in the result.
    pub closed spec fn separator(&self) -> char {
        self.separator
    }

    /// The builder counts its pieces.
    pub closed spec fn wf(&self) -> bool {
        self.append_count == self.strings@.len()
    }

    /// A builder without pieces.
    pub fn new(sep: char) -> (sb: Sb)
        ensures
            sb.wf(),
            sb.pieces() == Seq::<Seq<char>>::empty(),
            sb.separator() == sep,
    {
        Self { strings: Vec::new(), separator: sep, append_count: 0_usize }
    }

    /// The pieces joined. The builder keeps them.
    pub fn result(&mut self) -> (joined_text: String)
        ensures
            joined_text@ == joined(old(self).pieces(), old(self).separator()),
            final(self).pieces() == old(self).pieces(),
            final(self).separator() == old(self).separator(),
            final(self).wf() == old(self).wf(),
    {
        let mut result_string = String::new();
        let mut i: usize = 0;
        while i < self.strings.len()
            invariant
                i <= self.strings@.len(),
                *self == *old(self),
                result_string@ == joined(self.pieces().take(i as int), self.separator),
            decreases self.strings@.len() - i,
        {
            result_string.append(self.strings[i].as_str());
            result_string.push(self.separator);
            proof {
                let upto = self.pieces().take(i + 1);
                assert(upto.drop_last() =~= self.pieces().take(i as int));
            }
            i += 1;
        }
        assert(self.pieces().take(i as int) =~= self.pieces());
        result_string
    }

    /// Adds a piece at the end.
    pub fn write_string(&mut self, string_to_append: String)
        requires
            old(self).wf(),
        ensures
            final(self).wf(),
            final(self).pieces() == old(self).pieces().push(string_to_append@),
            final(self).separator() == old(self).separator(),
    {
        self.strings.push(string_to_append);
        assert(self.strings.len() == old(self).strings@.len() + 1);
        self.append_count += 1;
    }
}

/// A parsed program: its statements in order.
pub struct Program {
    statements: Vec<Box<dyn Statement>>,
}

impl Program {
    /// The source text of a program without statements: nothing.
    pub fn string() -> (text: String)
        ensures
            text@ == Seq::<char>::empty(),
    {
        let mut out = Sb::new('f');
        out.result()
    }
}

/// The parser's state: the tokenizer it reads from, where it stands, and
/// the errors it has met.
pub struct Parser<'a> {
    t: &'a Tokenizer,
    position: Rpos,
    errors: Vec<EmberParseError>,
}

impl<'a> Parser<'a> {
    /// The place the parser stands at.
    pub closed spec fn spec_position(&self) -> Rpos {
        self.position
    }

    /// The errors met so far, oldest first.
    pub closed spec fn spec_errors(&self) -> Seq<EmberParseErrorView> {
        Seq::new(self.errors@.len(), |i: int| self.errors@[i]@)
    }

    /// A parser at the start of `tokenizer`'s source, with no errors.
    pub fn new(tokenizer: &'a Tokenizer) -> (p: Parser<'a>)
        ensures
            p.spec_position() == (Rpos { ln: 1, col: 0 }),
            p.spec_errors() == Seq::<EmberParseErrorView>::empty(),
    {
        Self { t: tokenizer, position: Rpos::new(), errors: Vec::new() }
    }

    /// Records `err` after the errors met before.
    pub fn error(&mut self, err: EmberParseError)
        ensures
            final(self).spec_errors() == old(self).spec_errors().push(err@),
            final(self).spec_position() == old(self).spec_position(),
    {
        self.errors.push(err);
    }

    /// The place the parser stands at.
    pub fn position(&self) -> (p: Rpos)
        ensures
            p == self.spec_position(),
    {
        self.position
    }

    /// The errors met so far, oldest first.
    pub fn errors(&self) -> (errors: &Vec<EmberParseError>)
        ensures
            errors@.len() == self.spec_errors().len(),
            forall|i: int| 0 <= i < errors@.len() ==> errors@[i]@ == self.spec_errors()[i],
    {
        &self.errors
    }
}

} // verus!
