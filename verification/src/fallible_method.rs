//! Fields that may fail: `id` returns a `Result` with an error type of its
//! own, `homePlanet` a field result. Neither fails here.

use vstd::prelude::*;
use vstd::string::StringExecFns;

verus! {

/// The error of the `id` field. As a field error it carries the message
/// `Whatever` and the extension `code` with the value `some`.
pub struct CustomError;

impl CustomError {
    /// The message of the field error that this error becomes.
    pub fn message(&self) -> (r: &'static str)
        ensures
            r@ == "Whatever"@,
    {
        "Whatever"
    }

    /// The value of the `code` extension of the field error that this error
    /// becomes.
    pub fn code(&self) -> (r: &'static str)
        ensures
            r@ == "some"@,
    {
        "some"
    }

    /// The extensions of the field error that this error becomes, as pairs of
    /// key and value: only `code`, with the value `some`.
    pub fn extensions(&self) -> (r: Vec<(&'static str, &'static str)>)
        ensures
            r@.len() == 1,
            (r@[0].0)@ == "code"@,
            (r@[0].1)@ == "some"@,
    {
        let mut r: Vec<(&'static str, &'static str)> = Vec::new();
        r.push(("code", self.code()));
        r
    }
}

/// The object type `Human`, which owns its id.
pub struct Human {
    pub id: String,
}

impl Human {
    /// The `id` field: the id it holds, always successfully.
    pub fn id(&self) -> (r: Result<&str, CustomError>)
        ensures
            r matches Ok(v) && v@ == self.id@,
    {
        Ok(self.id.as_str())
    }

    /// The `homePlanet` field: always `"earth"`.
    pub fn home_planet() -> (r: &'static str)
        ensures
            r@ == "earth"@,
    {
        "earth"
    }
}

/// The query root.
#[derive(Clone, Copy)]
pub struct QueryRoot;

impl QueryRoot {
    /// The `human` field: a human with id `"human-32"`.
    pub fn human() -> (r: Human)
        ensures
            r.id@ == "human-32"@,
    {
        Human { id: String::from_str("human-32") }
    }
}

} // verus!
