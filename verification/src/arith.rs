//! Connectivity smoke-test operation: integer addition with explicitly
//! defined overflow behaviour (two's-complement wrap-around).

use vstd::prelude::*;

verus! {

/// Adds two machine integers. On overflow the result wraps around,
/// two's-complement style; within the representable range the result is the
/// exact mathematical sum.
pub fn add(a: i64, b: i64) -> (r: i64)
    ensures
        r == vstd::wrapping::i64_specs::wrapping_add(a, b),
        i64::MIN <= a + b <= i64::MAX ==> r == a + b,
{
    a.wrapping_add(b)
}

} // verus!
