//! An object type for every scalar value type that is `Clone`, with a field
//! that returns another object of the same type.

use vstd::prelude::*;

verus! {

/// The object type `Human`.
pub struct Human;

impl Human {
    /// The `id` field: always `"human-32"`.
    pub fn id() -> (r: &'static str)
        ensures
            r@ == "human-32"@,
    {
        "human-32"
    }

    /// The `another` field: another human.
    pub fn another(&self) -> (r: Human)
        ensures
            r == Human,
    {
        Human
    }
}

/// The query root.
pub struct QueryRoot;

impl QueryRoot {
    /// The `human` field.
    pub fn human() -> (r: Human)
        ensures
            r == Human,
    {
        Human
    }
}

} // verus!
