//! An object type whose fields and arguments keep their Rust names in the
//! schema (`home_planet`, `planet_name`, `async_info`, `my_num`).

use vstd::prelude::*;

verus! {

/// The object type `Human`.
pub struct Human;

impl Human {
    /// The `id` field: always `"human-32"`.
    pub fn id() -> (r: &'static str)
        ensures
            r@ == "human-32"@,
    {
        "human-32"
    }

    /// The `home_planet` field: its argument `planet_name`, unchanged.
    pub fn home_planet(&self, planet_name: String) -> (r: String)
        ensures
            r@ == planet_name@,
    {
        planet_name
    }

    /// The `async_info` field: its argument `my_num`, unchanged.
    pub fn async_info(my_num: i32) -> (r: i32)
        ensures
            r == my_num,
    {
        my_num
    }
}

/// The query root.
pub struct QueryRoot;

impl QueryRoot {
    /// The `human` field.
    pub fn human() -> (r: Human)
        ensures
            r == Human,
    {
        Human
    }
}

} // verus!
