//! Two-way-ranging core for an ultra-wideband localisation system.
//!
//! Wireless nodes measure their mutual distance by timing radio round
//! trips on a free-running 40-bit hardware clock. This crate holds the
//! verified heart of that system: the tick arithmetic that survives
//! clock wraparound, the wire encoding of timestamps, the single- and
//! double-sided distance computations with outlier rejection, the IIR
//! smoothing filter, and the per-step decision logic of the ranging
//! exchanges. The radio driver itself, and the loops that block on it,
//! live outside the library and hand plain values in and out.

use vstd::prelude::*;

pub mod error;
pub mod rtt_ds_algorithms;
pub mod rtt_ss_algorithms;
pub mod ticks;
pub mod tools;
pub mod uwb_basics;

verus! {

/// Unwraps a result that the caller has already shown to be `Ok`.
///
/// Unverified callers use this to die with a message on a failure they
/// cannot recover from; a verified caller must rule the `Err` case out
/// beforehand, so for it the message is only carried along.
pub fn ok_or_panic<T, E>(result: Result<T, E>, panic_info: &str) -> (r: T)
    requires
        result is Ok,
    ensures
        result == Ok::<T, E>(r),
{
    let _ = panic_info;
    match result {
        Ok(it) => it,
        Err(_err) => vstd::pervasive::unreached(),
    }
}

} // verus!
