//! The one-shot client-side acquire: request a channel and wait for the one
//! matching reply.
//!
//! An acquire call broadcasts exactly one request tagged with a fresh
//! correlation token, subscribes once to the inbound stream, and ignores
//! every message except the first reply carrying its token. On that first
//! match it unsubscribes exactly once, then resolves with the delivered
//! endpoint or fails with [`ChannelError::ChannelDenied`] if the reply
//! carries an error field. If no match ever arrives the call never completes;
//! there is no timeout.
//!
//! The runtime owns the subscription and the broadcast; this state machine
//! decides, for each inbound message, whether to stay subscribed or to
//! unsubscribe and complete, and with what.

use vstd::prelude::*;
use crate::errors::ChannelError;
use crate::identity::ChannelIdentity;
use crate::messages::{AcquireRequest, InboundMessage, build_acquire_request, reply_message_type,
    reply_type_string};

verus! {

/// Does `msg` address the call with correlation token `nonce`?
pub open spec fn is_matching_reply(msg: InboundMessage, nonce: Seq<char>) -> bool {
    &&& msg.msg_type@ == reply_message_type()
    &&& msg.nonce is Some
    &&& msg.nonce->Some_0@ == nonce
}

/// What one inbound message makes of a pending acquire call.
#[derive(Debug, PartialEq, Eq)]
pub enum ReplyAction {
    /// Not addressed to this call, or addressed but not usable: stay
    /// subscribed and keep waiting.
    Ignore,
    /// The matching reply delivered an endpoint: unsubscribe, resolve.
    Resolve { port: u64 },
    /// The matching reply carried an error field: unsubscribe, fail.
    Reject { error: String },
}

impl ReplyAction {
    /// The completion this action stands for: `None` keeps the call pending;
    /// a resolution yields the endpoint handle, a rejection the typed
    /// [`ChannelError::ChannelDenied`] failure.
    pub fn into_completion(self) -> (r: Option<Result<u64, ChannelError>>)
        ensures
            self is Ignore <==> r is None,
            self matches ReplyAction::Resolve { port } ==> r == Some(Ok::<u64, ChannelError>(
                port,
            )),
            self matches ReplyAction::Reject { error } ==> r == Some(Err::<u64, ChannelError>(
                ChannelError::ChannelDenied { message: error },
            )),
    {
        match self {
            ReplyAction::Ignore => None,
            ReplyAction::Resolve { port } => Some(Ok(port)),
            ReplyAction::Reject { error } => Some(Err(ChannelError::ChannelDenied {
                message: error,
            })),
        }
    }
}

/// The pending state of one acquire call.
pub struct RendezvousRequester {
    nonce: String,
    completed: bool,
}

impl RendezvousRequester {
    /// The call's correlation token.
    pub closed spec fn nonce(self) -> Seq<char> {
        self.nonce@
    }

    /// Whether the call has completed — that is, whether the one-shot
    /// subscription has been removed. Set at most once, by the first
    /// matching, usable reply.
    pub closed spec fn completed(self) -> bool {
        self.completed
    }

    pub fn is_completed(&self) -> (r: bool)
        ensures
            r == self.completed(),
    {
        self.completed
    }

    /// Start an acquire call: the requester to feed inbound messages to, and
    /// the one request to broadcast to the fixed upstream peer.
    pub fn new(nonce: String, identity: &ChannelIdentity) -> (r: (
        RendezvousRequester,
        AcquireRequest,
    ))
        ensures
            r.0.nonce() == nonce@,
            !r.0.completed(),
            r.1.msg_type@ == crate::messages::request_message_type(),
            r.1.nonce@ == nonce@,
            r.1.channel.name@ == identity.name@,
            r.1.channel.version@ == identity.version@,
    {
        let request = build_acquire_request(&nonce, identity);
        (RendezvousRequester { nonce, completed: false }, request)
    }

    /// Feed one inbound message to the pending call.
    ///
    /// Only the first reply whose correlation token matches, and which either
    /// carries an error field or actually delivers an endpoint, completes the
    /// call; everything else — unrelated traffic, foreign tokens, a matching
    /// reply with neither error nor endpoint — is ignored and the call keeps
    /// waiting. After completion the subscription is gone and every further
    /// message is ignored.
    pub fn on_message(&mut self, msg: &InboundMessage) -> (r: ReplyAction)
        ensures
            final(self).nonce() == old(self).nonce(),
            old(self).completed() ==> r is Ignore && final(self).completed(),
            !old(self).completed() && !is_matching_reply(*msg, old(self).nonce()) ==> r is Ignore
                && !final(self).completed(),
            !old(self).completed() && is_matching_reply(*msg, old(self).nonce()) ==> (match msg.error {
                Some(e) => r == (ReplyAction::Reject { error: e }) && final(self).completed(),
                None => {
                    if msg.channel is Some && msg.port is Some {
                        &&& r == (ReplyAction::Resolve { port: msg.port->Some_0 })
                        &&& final(self).completed()
                    } else {
                        r is Ignore && !final(self).completed()
                    }
                },
            }),
    {
        if self.completed {
            return ReplyAction::Ignore;
        }
        let expected = reply_type_string();
        if !(msg.msg_type == expected) {
            return ReplyAction::Ignore;
        }
        let matches_nonce = match &msg.nonce {
            Some(n) => *n == self.nonce,
            None => false,
        };
        if !matches_nonce {
            return ReplyAction::Ignore;
        }
        match &msg.error {
            Some(e) => {
                self.completed = true;
                ReplyAction::Reject { error: e.clone() }
            },
            None => {
                if msg.channel.is_some() {
                    match &msg.port {
                        Some(port) => {
                            self.completed = true;
                            ReplyAction::Resolve { port: *port }
                        },
                        None => ReplyAction::Ignore,
                    }
                } else {
                    ReplyAction::Ignore
                }
            },
        }
    }
}

} // verus!
