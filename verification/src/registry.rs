//! The rendezvous registry: a process-lifetime broker that matches acquire
//! requests against channel offers arriving in either order.
//!
//! The registry owns two maps keyed by the canonical channel key: pending
//! requests (each holding a continuation handle, invoked at most once) and
//! offered channels (each holding an endpoint handle). An offer that finds a
//! pending request resolves it on the spot; otherwise the offer is stored,
//! overwriting any prior unconsumed offer for the same identity
//! (last-write-wins). An acquire that finds a stored offer consumes it
//! synchronously; otherwise it installs a pending request, overwriting any
//! earlier continuation for the same identity.

use vstd::prelude::*;
use crate::identity::ChannelIdentity;
use crate::keymap::{KeyMap, key_map_entries};
use crate::messages::InboundMessage;

verus! {

/// The registry's state, as two mathematical maps from canonical channel keys
/// to handles.
pub ghost struct RegistryView {
    /// Pending requests: key to continuation handle.
    pub pending: Map<Seq<char>, u64>,
    /// Offers that arrived before any matching request: key to endpoint handle.
    pub offered: Map<Seq<char>, u64>,
}

impl RegistryView {
    pub open spec fn empty() -> RegistryView {
        RegistryView { pending: Map::empty(), offered: Map::empty() }
    }

    /// The identity is unresolved and unknown: present in neither map.
    pub open spec fn absent(self, k: Seq<char>) -> bool {
        !self.pending.dom().contains(k) && !self.offered.dom().contains(k)
    }
}

/// What the registry did with an inbound offer.
#[derive(Debug, PartialEq, Eq)]
pub enum OfferAction {
    /// A pending request for the identity existed: it was removed, and its
    /// continuation handle is to be invoked with the endpoint handle.
    Resolved { resolver: u64, port: u64 },
    /// No pending request: the endpoint was stored for a later acquire.
    Stored,
}

/// What an acquire call got.
#[derive(Debug, PartialEq, Eq)]
pub enum AcquireOutcome {
    /// A stored offer existed: it was consumed, and the endpoint handle is
    /// returned synchronously.
    Ready { port: u64 },
    /// No stored offer: a pending request was installed, to be resolved by a
    /// later offer through its continuation handle.
    Pending,
}

/// The state transition an offer for key `k` with endpoint `port` causes.
pub open spec fn spec_handle_offer(s: RegistryView, k: Seq<char>, port: u64) -> (RegistryView,
    OfferAction) {
    if s.pending.dom().contains(k) {
        (
            RegistryView { pending: s.pending.remove(k), offered: s.offered },
            OfferAction::Resolved { resolver: s.pending[k], port },
        )
    } else {
        (
            RegistryView { pending: s.pending, offered: s.offered.insert(k, port) },
            OfferAction::Stored,
        )
    }
}

/// The state transition an acquire for key `k` with continuation handle
/// `resolver` causes.
pub open spec fn spec_acquire(s: RegistryView, k: Seq<char>, resolver: u64) -> (RegistryView,
    AcquireOutcome) {
    if s.offered.dom().contains(k) {
        (
            RegistryView { pending: s.pending, offered: s.offered.remove(k) },
            AcquireOutcome::Ready { port: s.offered[k] },
        )
    } else {
        (
            RegistryView { pending: s.pending.insert(k, resolver), offered: s.offered },
            AcquireOutcome::Pending,
        )
    }
}

/// The process-lifetime rendezvous broker. Lazily created on first use and
/// never torn down; its permanent inbound subscription is owned by the
/// runtime around it, which feeds every inbound message to
/// [`handle_message`](RendezvousRegistry::handle_message).
pub struct RendezvousRegistry {
    pending_acquires: KeyMap,
    available_channels: KeyMap,
}

impl View for RendezvousRegistry {
    type V = RegistryView;

    closed spec fn view(&self) -> RegistryView {
        RegistryView {
            pending: key_map_entries(self.pending_acquires),
            offered: key_map_entries(self.available_channels),
        }
    }
}

impl RendezvousRegistry {
    /// Create the registry, empty, together with the one bootstrap broadcast
    /// the caller must send before subscribing permanently.
    pub fn new() -> (r: (RendezvousRegistry, String))
        ensures
            r.0@ == RegistryView::empty(),
            r.1@ == crate::messages::bootstrap_message_type(),
    {
        let reg = RendezvousRegistry {
            pending_acquires: KeyMap::new(),
            available_channels: KeyMap::new(),
        };
        (reg, crate::messages::build_bootstrap_request())
    }

    /// An offer for `identity` carrying endpoint handle `port` arrived.
    ///
    /// If a pending request exists it is removed and its continuation handle
    /// returned for invocation (the offer is not also stored); otherwise the
    /// endpoint is stored, overwriting any prior unconsumed offer.
    pub fn handle_offer(&mut self, identity: &ChannelIdentity, port: u64) -> (r: OfferAction)
        ensures
            ({
                let (s2, a) = spec_handle_offer(old(self)@, identity.key(), port);
                final(self)@ == s2 && r == a
            }),
    {
        let key = identity.canonical_key();
        let ghost pending0 = key_map_entries(self.pending_acquires);
        match self.pending_acquires.remove(key.as_str()) {
            Some(resolver) => OfferAction::Resolved { resolver, port },
            None => {
                proof {
                    assert(key_map_entries(self.pending_acquires) =~= pending0);
                }
                self.available_channels.insert(key, port);
                OfferAction::Stored
            },
        }
    }

    /// Acquire the channel for `identity`, `resolver` being the handle of the
    /// continuation to invoke if no offer is stored yet.
    ///
    /// A stored offer is consumed and returned synchronously; otherwise the
    /// continuation is installed, overwriting any earlier one for the same
    /// identity (which then never fires).
    pub fn acquire(&mut self, identity: &ChannelIdentity, resolver: u64) -> (r: AcquireOutcome)
        ensures
            ({
                let (s2, a) = spec_acquire(old(self)@, identity.key(), resolver);
                final(self)@ == s2 && r == a
            }),
    {
        let key = identity.canonical_key();
        let ghost offered0 = key_map_entries(self.available_channels);
        match self.available_channels.remove(key.as_str()) {
            Some(port) => AcquireOutcome::Ready { port },
            None => {
                proof {
                    assert(key_map_entries(self.available_channels) =~= offered0);
                }
                self.pending_acquires.insert(key, resolver);
                AcquireOutcome::Pending
            },
        }
    }

    /// Feed one inbound transport message to the registry. A well-shaped
    /// offer causes the offer transition; every other message is silently
    /// ignored by design.
    pub fn handle_message(&mut self, msg: &InboundMessage) -> (r: Option<OfferAction>)
        ensures
            msg.is_offer() ==> ({
                let (s2, a) = spec_handle_offer(
                    old(self)@,
                    msg.channel->Some_0.key(),
                    msg.port->Some_0,
                );
                final(self)@ == s2 && r == Some(a)
            }),
            !msg.is_offer() ==> final(self)@ == old(self)@ && r is None,
    {
        let expected = crate::messages::offer_type_string();
        if msg.msg_type == expected {
            match (&msg.channel, &msg.port) {
                (Some(identity), Some(port)) => Some(self.handle_offer(identity, *port)),
                _ => None,
            }
        } else {
            None
        }
    }
}

/// An acquire followed immediately by an offer for the same identity
/// resolves exactly once, with the installed continuation and the offered
/// endpoint; after the resolution both map entries for the identity are
/// absent, so nothing can resolve it again. A later offer for a different,
/// unmatched identity is merely stored and does not disturb this.
pub proof fn lemma_acquire_then_offer_resolves_once(
    s0: RegistryView,
    k: Seq<char>,
    resolver: u64,
    port: u64,
    k2: Seq<char>,
    port2: u64,
)
    requires
        s0.absent(k),
        k2 != k,
        !s0.pending.dom().contains(k2),
    ensures
        ({
            let (s1, a1) = spec_acquire(s0, k, resolver);
            let (s2, a2) = spec_handle_offer(s1, k, port);
            let (s3, a3) = spec_handle_offer(s2, k2, port2);
            &&& a1 == AcquireOutcome::Pending
            &&& a2 == (OfferAction::Resolved { resolver, port })
            &&& s2.absent(k)
            &&& a3 == OfferAction::Stored
            &&& s3.absent(k)
        }),
{
}

/// Order independence: delivering offer-before-request and
/// request-before-offer for the same identity both yield exactly one
/// resolution, carrying the same endpoint handle, and leave the registry in
/// the same state, with the identity absent from both maps — no duplicate
/// resolution, no entry left behind to deadlock on.
pub proof fn lemma_order_independence(s0: RegistryView, k: Seq<char>, resolver: u64, port: u64)
    requires
        s0.absent(k),
    ensures
        ({
            let (s1, a1) = spec_acquire(s0, k, resolver);
            let (s2, a2) = spec_handle_offer(s1, k, port);
            let (t1, b1) = spec_handle_offer(s0, k, port);
            let (t2, b2) = spec_acquire(t1, k, resolver);
            &&& a1 == AcquireOutcome::Pending
            &&& a2 == (OfferAction::Resolved { resolver, port })
            &&& b1 == OfferAction::Stored
            &&& b2 == (AcquireOutcome::Ready { port })
            &&& s2.absent(k)
            &&& t2.absent(k)
            &&& s2.pending =~= t2.pending
            &&& s2.offered =~= t2.offered
            &&& s2.pending =~= s0.pending
            &&& s2.offered =~= s0.offered
        }),
{
}

} // verus!
