//! Object types declared for a scalar value type of the schema's own.

use vstd::prelude::*;

verus! {

/// The object type `Human`.
pub struct Human;

impl Human {
    /// The `id` field: always `"human-32"`.
    pub fn id() -> (r: &'static str)
        ensures
            r@ == "human-32"@,
    {
        "human-32"
    }

    /// The `homePlanet` field: always `"earth"`.
    pub fn home_planet(&self) -> (r: &str)
        ensures
            r@ == "earth"@,
    {
        "earth"
    }
}

/// The query root.
pub struct QueryRoot;

impl QueryRoot {
    /// The `human` field.
    pub fn human() -> (r: Human)
        ensures
            r == Human,
    {
        Human
    }
}

} // verus!
