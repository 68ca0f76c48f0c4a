use vstd::prelude::*;

verus! {

/// `x` reduced into the range of `i32` by two's-complement wrapping.
pub open spec fn wrap_i32(x: int) -> int {
    let m = x % 0x1_0000_0000;
    if m > i32::MAX {
        m - 0x1_0000_0000
    } else {
        m
    }
}

/// Adds two integers. An overflow wraps around (two's complement); it is
/// not an error.
pub fn sum(a: i32, b: i32) -> (r: i32)
    ensures
        r as int == wrap_i32(a + b),
        i32::MIN <= a + b <= i32::MAX ==> r == a + b,
{
    let r = a.wrapping_add(b);
    r
}

} // verus!
