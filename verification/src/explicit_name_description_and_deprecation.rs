//! An object type whose schema name (`MyHuman`), description (`My human.`),
//! field names, descriptions and deprecations are given explicitly: `myId`
//! (described `My human ID.`, deprecated `Not used.`, with the argument
//! `myName` described `My argument.`), `a` (deprecated without a reason) and
//! `b`.

use vstd::prelude::*;

verus! {

/// The object type `MyHuman`.
pub struct Human;

impl Human {
    /// The `myId` field, whatever its argument `myName`: always `"human-32"`.
    pub fn id(_n: String) -> (r: &'static str)
        ensures
            r@ == "human-32"@,
    {
        "human-32"
    }

    /// The `a` field: always `"a"`.
    pub fn a(&self) -> (r: &str)
        ensures
            r@ == "a"@,
    {
        "a"
    }

    /// The `b` field: always `"b"`.
    pub fn b(&self) -> (r: &str)
        ensures
            r@ == "b"@,
    {
        "b"
    }
}

/// The query root.
pub struct QueryRoot;

impl QueryRoot {
    /// The `human` field.
    pub fn human() -> (r: Human)
        ensures
            r == Human,
    {
        Human
    }
}

} // verus!
