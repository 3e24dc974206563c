//! Appending to a vector that the caller hands over.

use vstd::prelude::*;

verus! {

/// Returns the given vector with `88` appended.
pub fn fill_vec(vec: Vec<i32>) -> (r: Vec<i32>)
    ensures
        r@ == vec@.push(88),
{
    let mut vec = vec;
    vec.push(88);
    vec
}

} // verus!
