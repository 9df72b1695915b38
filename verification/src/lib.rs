//! A minimal stack-based virtual machine with verified semantics.
//!
//! The [`vm`] module holds the binary instruction format, the encoder that
//! builds programs in it, and the execution engine that runs them. The
//! [`assembler`] module holds the lexical front end of the textual assembly
//! language.

pub mod assembler;
pub mod text;
pub mod vm;
