//! Conversions from vectors to the fixed-size arrays the rendering stage takes.

use vstd::prelude::*;

verus! {

/// Copies a vector of exactly eight elements into an array, in order.
pub fn to_f32_8<T>(v: Vec<T>) -> (array: [T; 8]) where T: Copy
    requires
        v@.len() == 8,
    ensures
        array@ == v@,
{
    let array: [T; 8] = [v[0], v[1], v[2], v[3], v[4], v[5], v[6], v[7]];
    assert(array@ =~= v@);
    array
}

/// Copies a vector of exactly sixteen elements into an array, in order.
pub fn to_f32_16<T>(v: Vec<T>) -> (array: [T; 16]) where T: Copy
    requires
        v@.len() == 16,
    ensures
        array@ == v@,
{
    let array: [T; 16] = [
        v[0], v[1], v[2], v[3], v[4], v[5], v[6], v[7],
        v[8], v[9], v[10], v[11], v[12], v[13], v[14], v[15],
    ];
    assert(array@ =~= v@);
    array
}

} // verus!
