//! The rule every binding constructor follows for its optional arguments:
//! an argument that is given replaces the library default, one that is
//! omitted keeps it.
use vstd::prelude::*;

verus! {

/// `given` where it is present, else `current`.
pub fn given_or<T>(given: Option<T>, current: T) -> (r: T)
    ensures
        r == (match given {
            Some(v) => v,
            None => current,
        }),
{
    match given {
        Some(v) => v,
        None => current,
    }
}

/// For a setting that is itself optional: `given` where it is present,
/// else `current`, so an omitted argument never clears a default.
pub fn given_or_keep<T>(given: Option<T>, current: Option<T>) -> (r: Option<T>)
    ensures
        r == (if given is Some {
            given
        } else {
            current
        }),
{
    match given {
        Some(v) => Some(v),
        None => current,
    }
}

/// A group of settings that exists only when its leading setting is given:
/// `None` without `lead`, else `lead` with `detail` as given (an omitted
/// detail keeps the group's default). A detail given without its lead is
/// dropped.
pub fn given_group<T, U>(lead: Option<T>, detail: Option<U>) -> (r: Option<(T, Option<U>)>)
    ensures
        r == (match lead {
            Some(v) => Some((v, detail)),
            None => None,
        }),
{
    match lead {
        Some(v) => Some((v, detail)),
        None => None,
    }
}

} // verus!
