//! Matching on a `Result` whose error type has no values.
use vstd::prelude::*;
use vstd::pervasive::unreached;
use core::convert::Infallible;

verus! {

/// Builds `Ok(1)` with an uninhabited error type and matches it; the
/// error arm is proved unreachable, so the result is the wrapped value.
pub fn crux_test() -> (r: i32)
    ensures
        r == 1,
{
    let x: Result<i32, Infallible> = Ok(1);
    match x {
        Ok(v) => v,
        Err(e) => {
            let _r = &e;
            unreached()
        },
    }
}

} // verus!
