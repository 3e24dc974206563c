//! Building a vector inside the function that returns it.

use vstd::prelude::*;

verus! {

/// Builds the vector `[22, 44, 66]` and appends `88` to it.
pub fn fill_vec() -> (r: Vec<i32>)
    ensures
        r@ == seq![22i32, 44, 66, 88],
{
    let mut vec: Vec<i32> = vec![22, 44, 66];
    vec.push(88);
    vec
}

} // verus!
