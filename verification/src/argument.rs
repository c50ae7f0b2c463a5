//! Fields with arguments, some named by raw identifiers.

use vstd::prelude::*;
use vstd::string::StringExecFns;
use crate::render::{append_option_i32_debug, option_i32_debug};

verus! {

/// The object type `Human`.
pub struct Human;

impl Human {
    /// The `id` field: its argument `arg`, unchanged.
    pub fn id(arg: String) -> (r: String)
        ensures
            r@ == arg@,
    {
        arg
    }

    /// The `homePlanet` field with the arguments `rawArg` and `async`:
    /// `rawArg`, a comma, then `async` as `{:?}` renders it (`None` or
    /// `Some(n)`).
    pub fn home_planet(&self, raw_arg: String, async_: Option<i32>) -> (r: String)
        ensures
            r@ == raw_arg@ + ","@ + option_i32_debug(async_),
    {
        let mut s = raw_arg;
        s.append(",");
        append_option_i32_debug(&mut s, async_);
        s
    }
}

/// The query root.
pub struct QueryRoot;

impl QueryRoot {
    /// The `human` field.
    pub fn human() -> (r: Human)
        ensures
            r == Human,
    {
        Human
    }
}

} // verus!
