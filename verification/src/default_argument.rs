//! Field arguments with default values: an argument that a query leaves out
//! takes the default declared here.

use vstd::prelude::*;
use vstd::string::StringExecFns;
use crate::render::{append_bool, append_i32, bool_text, int_decimal};

verus! {

/// The input object `Point`.
#[derive(Debug)]
pub struct Point {
    pub x: i32,
}

/// The object type `Human`.
pub struct Human;

impl Human {
    /// The `id` field: `arg1`, `|`, `arg2`, `&`, `arg3`, each as `{}`
    /// renders it.
    pub fn id(arg1: i32, arg2: String, arg3: bool) -> (r: String)
        ensures
            r@ == int_decimal(arg1 as int) + "|"@ + arg2@ + "&"@ + bool_text(arg3),
    {
        let mut s = String::new();
        append_i32(&mut s, arg1);
        s.append("|");
        s.append(arg2.as_str());
        s.append("&");
        append_bool(&mut s, arg3);
        s
    }

    /// The default of `arg1` of `id`: the integer default, `0`.
    pub fn id_arg1_default() -> (r: i32)
        ensures
            r == 0,
    {
        0
    }

    /// The default of `arg2` of `id`: `"second"`.
    pub fn id_arg2_default() -> (r: String)
        ensures
            r@ == "second"@,
    {
        String::from_str("second")
    }

    /// The default of `arg3` of `id`: `true`.
    pub fn id_arg3_default() -> (r: bool)
        ensures
            r,
    {
        true
    }

    /// The `info` field: the `x` of its argument `coord`.
    pub fn info(coord: Point) -> (r: i32)
        ensures
            r == coord.x,
    {
        coord.x
    }

    /// The default of `coord` of `info`: the point with `x` equal to `1`.
    pub fn info_coord_default() -> (r: Point)
        ensures
            r.x == 1,
    {
        Point { x: 1 }
    }
}

/// The query root.
pub struct QueryRoot;

impl QueryRoot {
    /// The `human` field.
    pub fn human() -> (r: Human)
        ensures
            r == Human,
    {
        Human
    }
}

} // verus!
