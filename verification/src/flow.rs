//! Signed 31-bit flow-control window arithmetic with overflow detection.

use vstd::prelude::*;
use crate::frame::MAX_WINDOW_SIZE;

verus! {

/// Grows a window by an increment. `None` exactly when the result would
/// exceed the legal maximum of 2^31 - 1.
pub fn window_inc(w: i32, inc: u32) -> (r: Option<i32>)
    ensures
        (r is Some) <==> w + inc <= MAX_WINDOW_SIZE,
        r matches Some(v) ==> v == w + inc,
{
    let sum: i64 = w as i64 + inc as i64;
    if sum > MAX_WINDOW_SIZE as i64 {
        None
    } else {
        Some(sum as i32)
    }
}

/// Shrinks a window by a payload size. `None` exactly when the result
/// would fall below the smallest representable window.
pub fn window_dec(w: i32, dec: u32) -> (r: Option<i32>)
    ensures
        (r is Some) <==> w - dec >= i32::MIN,
        r matches Some(v) ==> v == w - dec,
{
    let diff: i64 = w as i64 - dec as i64;
    if diff < i32::MIN as i64 {
        None
    } else {
        Some(diff as i32)
    }
}

} // verus!
