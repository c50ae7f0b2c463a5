//! An object type with deprecated fields: `a` is deprecated without a reason,
//! `b` with the reason ``Use `id`.``; `id` is not deprecated.

use vstd::prelude::*;

verus! {

/// The object type `Human`.
pub struct Human;

impl Human {
    /// The `id` field: always `"human-32"`.
    pub fn id() -> (r: &'static str)
        ensures
            r@ == "human-32"@,
    {
        "human-32"
    }

    /// The deprecated `a` field: always `"a"`.
    pub fn a(&self) -> (r: &str)
        ensures
            r@ == "a"@,
    {
        "a"
    }

    /// The deprecated `b` field: always `"b"`.
    pub fn b(&self) -> (r: &str)
        ensures
            r@ == "b"@,
    {
        "b"
    }
}

/// The query root.
pub struct QueryRoot;

impl QueryRoot {
    /// The `human` field.
    pub fn human() -> (r: Human)
        ensures
            r == Human,
    {
        Human
    }
}

} // verus!
