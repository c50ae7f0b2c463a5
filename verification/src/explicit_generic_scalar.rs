//! An object type generic over the scalar value type, with a field that
//! returns another object of the same type.

use std::marker::PhantomData;
use vstd::prelude::*;

verus! {

/// The object type `Human`, for the scalar value type `S`.
pub struct Human<S>(pub PhantomData<S>);

impl<S> Human<S> {
    /// The `id` field: always `"human-32"`.
    pub fn id() -> (r: &'static str)
        ensures
            r@ == "human-32"@,
    {
        "human-32"
    }

    /// The `another` field: another human.
    pub fn another(&self) -> (r: Human<S>)
        ensures
            r == Human::<S>(PhantomData),
    {
        Human(PhantomData)
    }
}

/// The query root.
pub struct QueryRoot;

impl QueryRoot {
    /// The `human` field.
    pub fn human<S>() -> (r: Human<S>)
        ensures
            r == Human::<S>(PhantomData),
    {
        Human(PhantomData)
    }
}

} // verus!
