//! The ways in which handing an event to the library can fail.

use vstd::prelude::*;

verus! {

/// Why an event was not taken, or not delivered.
#[derive(Clone, Copy, Debug, PartialEq, Eq, Structural)]
pub enum Error {
    /// The event cannot be sent at all: a batch that holds nothing else would
    /// already be over the size limit.
    MessageTooLarge,
    /// The transport reported that a batch did not arrive. The events of that
    /// batch are gone from the buffer and are not queued again.
    DeliveryFailed,
}

} // verus!
