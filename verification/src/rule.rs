//! The identities of the grammar's productions.

use vstd::prelude::*;

verus! {

/// The grammar rule that produced a node of the concrete parse tree.
#[derive(Clone, Copy, Debug, PartialEq, Eq, Hash, Structural)]
pub enum Rule {
    /// The root of a parse: one type expression followed by the end of input.
    Ast,
    /// The end-of-input marker.
    Eoi,
    /// A full type expression: optional reference, optional `impl` marker,
    /// the type proper, and an optional trailing `as` target.
    Type,
    /// A parenthesized element list used as a type.
    Tuple,
    /// A comma-separated element list, between parentheses or angle brackets.
    TypeTuple,
    /// A borrow marker such as `&`, `&'a` or `&mut`.
    Reference,
    /// The `impl` marker of an existential type.
    ImplMarker,
    /// A name, optionally followed by generic arguments.
    RegularType,
    /// A name with explicitly instantiated generic arguments (`Name::<Args>`).
    TurbofishType,
    /// A closure or function-pointer type.
    ClosureType,
    /// The identifier token that names a type.
    TypeName,
}

} // verus!
