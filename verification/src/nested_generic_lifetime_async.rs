//! Object types that borrow from the query root and nest one in another: a
//! `Human` (or `HumanString`) has a `droid` of type `Droid` (or
//! `DroidString`).

use vstd::prelude::*;

verus! {

/// The droid object type, generic over the type of its id.
pub struct Droid<'p, A = ()> {
    pub id: A,
    pub primary_function: &'p str,
}

impl<'p> Droid<'p, i32> {
    /// The `id` field of `Droid`.
    pub fn id(&self) -> (r: i32)
        ensures
            r == self.id,
    {
        self.id
    }

    /// The `primaryFunction` field of `Droid`.
    pub fn primary_function(&self) -> (r: &str)
        ensures
            r@ == self.primary_function@,
    {
        self.primary_function
    }
}

impl<'id, 'p> Droid<'p, &'id str> {
    /// The `id` field of `DroidString`.
    pub fn id(&self) -> (r: &str)
        ensures
            r@ == self.id@,
    {
        self.id
    }

    /// The `primaryFunction` field of `DroidString`.
    pub fn primary_function(&self) -> (r: &str)
        ensures
            r@ == self.primary_function@,
    {
        self.primary_function
    }
}

/// The human object type, generic over the type of its id.
pub struct Human<'p, A = ()> {
    pub id: A,
    pub home_planet: &'p str,
}

impl<'p> Human<'p, i32> {
    /// The `id` field of `Human`.
    pub fn id(&self) -> (r: i32)
        ensures
            r == self.id,
    {
        self.id
    }

    /// The `planet` field of `Human`.
    pub fn planet(&self) -> (r: &str)
        ensures
            r@ == self.home_planet@,
    {
        self.home_planet
    }

    /// The `droid` field of `Human`: a droid with the human's id, whose
    /// primary function is `"run"`.
    pub fn droid(&self) -> (r: Droid<'_, i32>)
        ensures
            r.id == self.id,
            r.primary_function@ == "run"@,
    {
        Droid { id: self.id, primary_function: "run" }
    }
}

impl<'id, 'p> Human<'p, &'id str> {
    /// The `id` field of `HumanString`.
    pub fn id(&self) -> (r: &str)
        ensures
            r@ == self.id@,
    {
        self.id
    }

    /// The `planet` field of `HumanString`.
    pub fn planet(&self) -> (r: &str)
        ensures
            r@ == self.home_planet@,
    {
        self.home_planet
    }

    /// The `droid` field of `HumanString`: a droid with id `"none"` whose
    /// primary function is the human's planet.
    pub fn droid(&self) -> (r: Droid<'_, &str>)
        ensures
            r.id@ == "none"@,
            r.primary_function@ == self.home_planet@,
    {
        Droid { id: "none", primary_function: self.home_planet }
    }
}

/// The query root, which holds a string that `humanString` lends out.
#[derive(Clone)]
pub struct QueryRoot(pub String);

impl QueryRoot {
    /// The `human` field: id `32` on planet `"earth"`.
    pub fn human(&self) -> (r: Human<'static, i32>)
        ensures
            r.id == 32,
            r.home_planet@ == "earth"@,
    {
        Human { id: 32, home_planet: "earth" }
    }

    /// The `humanString` field: both its id and its planet are the root's string.
    pub fn human_string(&self) -> (r: Human<'_, &str>)
        ensures
            r.id@ == self.0@,
            r.home_planet@ == self.0@,
    {
        Human { id: self.0.as_str(), home_planet: self.0.as_str() }
    }
}

} // verus!
