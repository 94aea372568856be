//! Classified failures of a ranging exchange.

use vstd::prelude::*;

verus! {

/// An error that can occur while driving an exchange.
///
/// Every variant is recovered at the exchange boundary: the node state
/// is always handed back beside the error so the caller's measurement
/// loop can continue with the next cycle.
#[derive(Clone, Copy, PartialEq, Eq, Structural, Debug)]
pub enum Error {
    /// The transceiver reported a hardware-level failure.
    Dw3000Error,
    /// No frame arrived within the caller-supplied deadline.
    TimeoutError,
    /// A frame arrived from a sender outside the configured peer set.
    ModuleInconnu,
    /// The anchor signalled a fault by placing the sentinel in its payload.
    ModuleAnchor,
    /// The tag signalled a fault by placing the sentinel in its payload.
    ModuleTag,
}

} // verus!
