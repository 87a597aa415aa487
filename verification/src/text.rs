//! Small string helpers shared by the modules of this crate.

use vstd::prelude::*;
use vstd::string::StringExecFns;

verus! {

/// String-slice equality, specified over the character views.
pub fn str_eq(a: &str, b: &str) -> (r: bool)
    ensures
        r == (a@ == b@),
{
    let left = String::from_str(a);
    let right = String::from_str(b);
    left == right
}

} // verus!
