//! Error taxonomy of the player.

use vstd::prelude::*;

verus! {

/// Why an operation was refused or abandoned.
#[derive(Clone, Copy, Debug, PartialEq, Eq, Structural)]
pub enum Error {
    /// A caller-supplied value lies outside its documented range
    /// (for example a VCOM voltage not strictly between -5 V and 0 V).
    /// Rejected before any I/O happens.
    Precondition,
    /// A decoded structure had the wrong size or shape: the device and the
    /// host no longer agree on the protocol, fatal to the session.
    Protocol,
    /// A USB-layer failure (timeout, disconnect, unrecoverable stall),
    /// reported by the transport and propagated unwrapped.
    Transport,
    /// The frame set does not match the device or target dimensions.
    Resource,
}

} // verus!
