//! Building a fixed-size array from one value and reading an element back.
use vstd::prelude::*;

verus! {

/// The value that `crux_test` hands to `f`.
pub const ARG: u8 = 42;

/// Fills a four-element array with `x` and returns its first element.
pub fn f(x: u8) -> (r: u8)
    ensures
        r == x,
{
    let xs: [u8; 4] = [x; 4];
    xs[0]
}

/// Applies `f` to `ARG`.
pub fn crux_test() -> (r: u8)
    ensures
        r == ARG,
{
    f(ARG)
}

} // verus!
