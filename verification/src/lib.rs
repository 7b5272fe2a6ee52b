//! Turns the concrete parse tree of a type expression into a typed syntax tree.
//!
//! A grammar engine hands over a tree of [`Node`]s, each tagged with the
//! [`Rule`] that produced it. [`parse_root`] walks that tree depth first and
//! left to right and rebuilds a [`TypeExpr`], or reports a located
//! [`ParseError`]. Every conversion routine is specified by a function of the
//! tree alone, and proved to compute exactly that function.

pub mod ast;
pub mod error;
pub mod laws;
pub mod model;
pub mod parsing;
pub mod rule;
pub mod text;
pub mod tree;

pub use ast::{Type, TypeExpr};
pub use error::{ParseError, Site};
pub use parsing::{parse_root, parse_type_tuple};
pub use rule::Rule;
pub use tree::{Node, Span};
