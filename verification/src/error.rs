//! The errors a handler can return to the host.

use vstd::prelude::*;

verus! {

/// Every failure a handler reports. The host rolls back all state writes of
/// the failing invocation, so a handler that returns an error leaves the
/// state exactly as it found it.
#[derive(Clone, Copy, Debug, PartialEq, Eq, Structural)]
pub enum ContractError {
    /// An execute call asked to send a packet before any channel connected.
    NoOpenChannel,
    /// A query asked for a record that has never been written.
    NotFound,
    /// A packet or acknowledgement payload was not a well-formed `PacketMsg`.
    DecodeFailure,
}

} // verus!
