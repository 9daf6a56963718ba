//! Error taxonomy of the SDK.
//!
//! Two conditions are surfaced as typed failures and never retried
//! automatically; resilience is the caller's responsibility, by re-issuing
//! the acquire. Two further conditions are deliberately not errors: an
//! inbound message that matches no recognized shape is silently ignored (the
//! transport is shared, and many unrelated messages pass through), and a
//! participant writing the lock word outside the protocol is undefined
//! behavior, not detected.

use vstd::prelude::*;

verus! {

#[derive(Debug, PartialEq, Eq)]
pub enum ChannelError {
    /// The rendezvous reply carried an explicit error field: the channel was
    /// denied, with the peer's message.
    ChannelDenied { message: String },
    /// The peer execution context, or the atomic handoff of the endpoint and
    /// region to it, could not be created; fatal to that spawn attempt.
    SpawnFailed,
}

} // verus!
