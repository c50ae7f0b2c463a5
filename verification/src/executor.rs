//! Fields that take the executor: its arguments are no arguments of the
//! field, and `id` resolves to the name of the field being resolved, as the
//! executor's look-ahead gives it.

use vstd::prelude::*;

verus! {

/// The object type `Human`.
pub struct Human;

impl Human {
    /// The `id` field: the name under which the executor resolves it, which
    /// the caller takes from the executor's look-ahead.
    pub fn id<'e>(&self, field_name: &'e str) -> (r: &'e str)
        ensures
            r@ == field_name@,
    {
        field_name
    }

    /// The `info` field: its argument `arg`, unchanged.
    pub fn info(&self, arg: String) -> (r: String)
        ensures
            r@ == arg@,
    {
        arg
    }

    /// The `info2` field: always `"no info"`.
    pub fn info2() -> (r: &'static str)
        ensures
            r@ == "no info"@,
    {
        "no info"
    }
}

/// The query root.
pub struct QueryRoot;

impl QueryRoot {
    /// The `human` field.
    pub fn human() -> (r: Human)
        ensures
            r == Human,
    {
        Human
    }
}

} // verus!
