//! An object type whose schema description comes from its doc comments.

use vstd::prelude::*;

verus! {

/// The object type `Human`, which the schema describes as `Rust docs.`
pub struct Human;

impl Human {
    /// The `id` field, which the schema describes as ``Rust `id` docs.``:
    /// always `"human-32"`.
    pub fn id() -> (r: &'static str)
        ensures
            r@ == "human-32"@,
    {
        "human-32"
    }
}

/// The query root.
pub struct QueryRoot;

impl QueryRoot {
    /// The `human` field.
    pub fn human() -> (r: Human)
        ensures
            r == Human,
    {
        Human
    }
}

} // verus!
