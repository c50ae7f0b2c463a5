//! An object type with a method that the schema leaves out: `planet` is no
//! field of `Human`, whose only field is `id`.

use vstd::prelude::*;

verus! {

/// The object type `Human`.
pub struct Human;

impl Human {
    /// The `id` field: always `"human-32"`.
    pub fn id() -> (r: &'static str)
        ensures
            r@ == "human-32"@,
    {
        "human-32"
    }

    /// A plain method, not exposed as a field: always `"earth"`.
    pub fn planet() -> (r: &'static str)
        ensures
            r@ == "earth"@,
    {
        "earth"
    }
}

/// The query root.
pub struct QueryRoot;

impl QueryRoot {
    /// The `human` field.
    pub fn human() -> (r: Human)
        ensures
            r == Human,
    {
        Human
    }
}

} // verus!
