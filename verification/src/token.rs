//! Lexical tokens as the parser hands them to the tree.
//!
//! The tree stores tokens by value, purely so that a node can report the
//! literal text that introduced it; nothing here re-tokenizes.

use vstd::prelude::*;

verus! {

/// The kind of a lexical unit.  The tree never branches on the kind; it is
/// carried for diagnostics and for consumers such as a parser or evaluator.
#[derive(Clone, Copy, Debug, PartialEq, Eq, Structural)]
pub enum TokenKind {
    /// The `let` keyword.
    Let,
    /// The `return` keyword.
    Return,
    /// A name such as a variable.
    Ident,
    /// An integer literal.
    Int,
}

/// One lexical unit: its kind and the exact text it was read from.
#[derive(Clone, Debug)]
pub struct Token {
    pub kind: TokenKind,
    pub literal: String,
}

} // verus!
