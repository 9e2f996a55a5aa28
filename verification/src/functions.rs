//! Functions: a pure function of one argument.

use vstd::prelude::*;

verus! {

/// Adds five to `a`.
///
/// The sum has to fit the result type, which rules out the five largest
/// arguments.
pub fn add_five(a: i32) -> (sum: i32)
    requires
        a + 5 <= i32::MAX,
    ensures
        sum == a + 5,
{
    a + 5
}

} // verus!
