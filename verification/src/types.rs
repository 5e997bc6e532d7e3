//! The semantic type model: a closed set of structural types with
//! value-based equality.

use vstd::prelude::*;

verus! {

/// The kind of a resolved type.
#[derive(Clone, Copy, Debug, PartialEq, Eq, Structural)]
pub enum TypeTag {
    /// The built-in integer type.
    Int,
}

/// A procedure's signature: its return type, if it declares one.
#[derive(Clone, Debug, PartialEq)]
pub struct TypeProc {
    /// The procedure's return type.
    pub t_return: Option<Type>,
}

/// A resolved type. Types are immutable values compared by structure.
#[derive(Clone, Copy, Debug, PartialEq, Eq, Structural)]
pub struct Type {
    pub tag: TypeTag,
}

impl TypeProc {
    /// Creates a procedure type.
    pub fn new(t_return: Option<Type>) -> (r: Self)
        ensures
            r == (TypeProc { t_return }),
    {
        Self { t_return }
    }
}

impl Type {
    /// The integer type.
    pub fn new_int() -> (r: Self)
        ensures
            r == (Type { tag: TypeTag::Int }),
    {
        let tag = TypeTag::Int;
        Self { tag }
    }

    /// The type's kind.
    pub fn tag(&self) -> (t: &TypeTag)
        ensures
            *t == self.tag,
    {
        &self.tag
    }
}

} // verus!
