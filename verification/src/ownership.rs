//! Ownership demonstrations: moving a string through a function and
//! editing one through a mutable borrow.

use vstd::prelude::*;
use vstd::string::*;

verus! {

/// Takes the string by value and hands it back unchanged.
pub fn give_ownership(some_string: String) -> (r: String)
    ensures
        r == some_string,
{
    some_string
}

/// Appends an exclamation tail through the mutable borrow and hands the
/// borrow back.
pub fn give_ownership_borrows(s: &mut String) -> (r: &mut String)
    ensures
        (*r)@ == old(s)@ + "!!!"@,
        *final(s) == *final(r),
{
    s.append("!!!");
    s
}

} // verus!
