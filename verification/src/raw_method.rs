//! Fields whose Rust names are raw identifiers (`r#my_id`, `r#async`); the
//! schema names them `myId` and `async`.

use vstd::prelude::*;

verus! {

/// The object type `Human`.
pub struct Human;

impl Human {
    /// The `myId` field: always `"human-32"`.
    pub fn my_id() -> (r: &'static str)
        ensures
            r@ == "human-32"@,
    {
        "human-32"
    }

    /// The `async` field: always `"async-32"`.
    pub fn async_() -> (r: &'static str)
        ensures
            r@ == "async-32"@,
    {
        "async-32"
    }
}

/// The query root.
pub struct QueryRoot;

impl QueryRoot {
    /// The `human` field.
    pub fn human() -> (r: Human)
        ensures
            r == Human,
    {
        Human
    }
}

} // verus!
