//! Text helpers shared by the controller and the database model.

use vstd::prelude::*;

verus! {

/// String equality on character views, built from vstd's `to_owned`
/// and `String` equality specifications.
pub fn str_eq(a: &str, b: &str) -> (r: bool)
    ensures
        r == (a@ == b@),
{
    let x: String = a.to_owned();
    let y: String = b.to_owned();
    x == y
}

/// Duplicate of an optional text value, with the copy known equal.
pub fn clone_opt_string(o: &Option<String>) -> (r: Option<String>)
    ensures
        r == *o,
{
    match o {
        Some(s) => Some(s.clone()),
        None => None,
    }
}

} // verus!
