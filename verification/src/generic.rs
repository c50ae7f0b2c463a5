//! A generic object type whose GraphQL shape depends on its first type
//! parameter: `Human<i32>` is `Human`, `Human<String>` is `HumanString`.

use vstd::prelude::*;
use vstd::string::StringExecFns;

verus! {

/// The generic object type; `_home_planet` is never resolved.
pub struct Human<A = (), B = ()> {
    pub id: A,
    pub _home_planet: B,
}

impl<B> Human<i32, B> {
    /// The `id` field of `Human`: the integer it holds.
    pub fn id(&self) -> (r: i32)
        ensures
            r == self.id,
    {
        self.id
    }
}

impl<B> Human<String, B> {
    /// The `id` field of `HumanString`: the string it holds.
    pub fn id(&self) -> (r: &str)
        ensures
            r@ == self.id@,
    {
        self.id.as_str()
    }
}

/// The query root.
#[derive(Clone, Copy)]
pub struct QueryRoot;

impl QueryRoot {
    /// The `human` field: a `Human` with id `32`.
    pub fn human(&self) -> (r: Human<i32>)
        ensures
            r.id == 32,
    {
        Human { id: 32, _home_planet: () }
    }

    /// The `humanString` field: a `HumanString` with id `"human-32"`.
    pub fn human_string(&self) -> (r: Human<String>)
        ensures
            r.id@ == "human-32"@,
    {
        Human { id: String::from_str("human-32"), _home_planet: () }
    }
}

} // verus!
