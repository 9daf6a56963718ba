//! Verified core of a host/peer plugin-channel SDK.
//!
//! A host application establishes a named + versioned channel with an
//! isolated peer unit (the rendezvous), then the two sides exchange state
//! through a shared memory region guarded by a lock word (the mutex).
//! This crate holds the verified protocol logic; the surrounding runtime
//! glue (message transport, worker spawning, atomics on a real shared
//! buffer) lives outside it and hands plain values in and out.

pub mod contention;
pub mod errors;
pub mod identity;
pub mod keymap;
pub mod messages;
pub mod nonce;
pub mod registry;
pub mod requester;
pub mod shmem;
pub mod state;

pub use identity::ChannelIdentity;
