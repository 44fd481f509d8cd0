//! Counters of a receive session.

use vstd::prelude::*;

verus! {

/// A snapshot of what a receive session has counted.
#[derive(Clone, Copy, Debug, PartialEq, Eq, Structural)]
pub struct RunStatistics {
    /// Messages handed to the presenter.
    pub messages_received: u32,
    /// Payload bytes of those messages.
    pub bytes_received: u64,
    /// Messages that were dropped or could not be decoded. Such a loss never
    /// stops the receive loop; it only shows here.
    pub messages_lost: u32,
}

} // verus!
