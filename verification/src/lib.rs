//! Abstract syntax tree for a small statement/expression language, together
//! with a verified source-reconstruction printer.
//!
//! A parser (out of scope here) builds a [`ast::Program`]: an ordered sequence
//! of statements, each carrying the token that introduced it.  Every node can
//! report that token's literal text and can render itself back to source text.
//! The rendering functions are pure and their output is pinned down exactly by
//! spec functions, so determinism, statement-terminator placement and order
//! preservation are proved rather than merely tested.

pub mod ast;
pub mod token;
