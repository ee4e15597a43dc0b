//! Helpers.

use std::time::Duration;
use vstd::prelude::*;

pub mod varint;

verus! {

/// The whole milliseconds in a length of time.
pub uninterp spec fn duration_millis(d: Duration) -> u128;

/// `Duration::as_millis`: the whole milliseconds in a length of time.
#[verifier::external_body]
fn as_millis(d: Duration) -> (n: u128)
    ensures
        n == duration_millis(d),
{
    d.as_millis()
}

/// A number of milliseconds as an `i32`, at most `i32::MAX`.
pub fn saturating_millis(millis: u128) -> (n: i32)
    ensures
        n == if millis > i32::MAX {
            i32::MAX as int
        } else {
            millis as int
        },
{
    if millis > 0x7fff_ffff {
        i32::MAX
    } else {
        millis as i32
    }
}

/// A length of time in whole milliseconds, at most `i32::MAX`.
pub fn duration_to_millis_i32(d: Duration) -> (n: i32)
    ensures
        n == if duration_millis(d) > i32::MAX {
            i32::MAX as int
        } else {
            duration_millis(d) as int
        },
{
    saturating_millis(as_millis(d))
}

} // verus!
