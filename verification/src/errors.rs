//! The errors the session core surfaces to its caller. All are terminal for
//! the call that produced them; the caller decides whether to retry at the
//! application level.

use vstd::prelude::*;

verus! {

/// An error surfaced by the tracker session core.
#[derive(Debug, Clone, PartialEq, Eq)]
pub enum TrackerError {
    /// A buffer's length does not equal (fixed-size messages) or reach
    /// (minimum-size messages) the length its action prescribes.
    LengthMismatch,
    /// A variable-constrained field could not be parsed. No current message
    /// carries such a field; reserved for the Scrape extension.
    MalformedField,
    /// The Connect exchange exhausted its retransmission schedule.
    ConnectFailed,
    /// A request exhausted the retransmission schedule without a reply.
    TrackerTimeout,
    /// The tracker answered with an Error action; the bytes are its
    /// human-readable message.
    TrackerRejected(Vec<u8>),
    /// The transaction was cancelled by its owner before completion.
    Cancelled,
}

} // verus!
