//! Object types that borrow their data from the query root.

use vstd::prelude::*;

verus! {

/// The object type, generic over the type of its id.
pub struct Human<'p, A = ()> {
    pub id: A,
    pub home_planet: &'p str,
}

impl<'p> Human<'p, i32> {
    /// The `id` field of `Human`.
    pub fn id(&self) -> (r: i32)
        ensures
            r == self.id,
    {
        self.id
    }

    /// The `planet` field of `Human`.
    pub fn planet(&self) -> (r: &str)
        ensures
            r@ == self.home_planet@,
    {
        self.home_planet
    }
}

impl<'id, 'p> Human<'p, &'id str> {
    /// The `id` field of `HumanString`.
    pub fn id(&self) -> (r: &str)
        ensures
            r@ == self.id@,
    {
        self.id
    }

    /// The `planet` field of `HumanString`.
    pub fn planet(&self) -> (r: &str)
        ensures
            r@ == self.home_planet@,
    {
        self.home_planet
    }
}

/// The query root, which holds a string that `humanString` lends out.
#[derive(Clone)]
pub struct QueryRoot(pub String);

impl QueryRoot {
    /// The `human` field: id `32` on planet `"earth"`.
    pub fn human(&self) -> (r: Human<'static, i32>)
        ensures
            r.id == 32,
            r.home_planet@ == "earth"@,
    {
        Human { id: 32, home_planet: "earth" }
    }

    /// The `humanString` field: both its id and its planet are the root's string.
    pub fn human_string(&self) -> (r: Human<'_, &str>)
        ensures
            r.id@ == self.0@,
            r.home_planet@ == self.0@,
    {
        Human { id: self.0.as_str(), home_planet: self.0.as_str() }
    }
}

} // verus!
