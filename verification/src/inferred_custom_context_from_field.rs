//! Object types that read a context of their own, which the object type takes
//! from the type of a field argument.

use vstd::prelude::*;

verus! {

/// The context that queries are executed with.
pub struct CustomContext(pub String);

/// The object type `Human`.
pub struct Human;

impl Human {
    /// The `id` field: the context's string.
    pub fn id<'c>(&self, context: &'c CustomContext) -> (r: &'c str)
        ensures
            r@ == context.0@,
    {
        context.0.as_str()
    }

    /// The `info` field: always `"human being"`.
    pub fn info() -> (r: &'static str)
        ensures
            r@ == "human being"@,
    {
        "human being"
    }

    /// The `more` field: the context's string.
    pub fn more(custom: &CustomContext) -> (r: &str)
        ensures
            r@ == custom.0@,
    {
        custom.0.as_str()
    }
}

/// The query root.
pub struct QueryRoot;

impl QueryRoot {
    /// The `human` field.
    pub fn human() -> (r: Human)
        ensures
            r == Human,
    {
        Human
    }
}

} // verus!
