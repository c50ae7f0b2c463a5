//! Fields that resolve a `Droid` together with the context to resolve it in:
//! always (`switchAlways`, non-null), as an option (`switchOpt`, nullable), as
//! a field result (`switchRes`, non-null) and as an optional field result
//! (`switchResOpt`, nullable). None of them fails or is null; the droids' ids
//! are `0` to `3` in that order.

use vstd::prelude::*;

verus! {

/// The context that queries are executed with.
pub struct CustomContext;

/// The object type `Droid`, with its one field `id`.
#[derive(Clone, Copy, Debug, PartialEq, Eq)]
pub struct Droid {
    pub id: i32,
}

/// The object type `Human`.
pub struct Human;

impl Human {
    /// The droid of the `switchAlways` field: the droid `0`.
    pub fn switch_always() -> (r: Droid)
        ensures
            r.id == 0,
    {
        Droid { id: 0 }
    }

    /// The droid of the `switchOpt` field: always present, the droid `1`.
    pub fn switch_opt() -> (r: Option<Droid>)
        ensures
            r matches Some(d) && d.id == 1,
    {
        Some(Droid { id: 1 })
    }

    /// The droid of the `switchRes` field: the droid `2`.
    pub fn switch_res(&self) -> (r: Droid)
        ensures
            r.id == 2,
    {
        Droid { id: 2 }
    }

    /// The droid of the `switchResOpt` field: always present, the droid `3`.
    pub fn switch_res_opt(&self) -> (r: Option<Droid>)
        ensures
            r matches Some(d) && d.id == 3,
    {
        Some(Droid { id: 3 })
    }
}

/// The query root.
pub struct QueryRoot;

impl QueryRoot {
    /// The `human` field.
    pub fn human() -> (r: Human)
        ensures
            r == Human,
    {
        Human
    }
}

} // verus!
