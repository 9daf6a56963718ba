//! The rendezvous wire messages, as plain values.
//!
//! The transport shuttles loosely shaped key-value messages between the two
//! sides. The runtime glue turns each inbound message into an
//! [`InboundMessage`] (absent or unusable fields become `None`) and turns the
//! outbound values built here back into transport messages. Everything the
//! protocol decides from a message is decided here, on plain values.

use vstd::prelude::*;
use vstd::string::StringExecFns;
use crate::identity::ChannelIdentity;

verus! {

/// Message type of an unsolicited channel offer broadcast.
pub open spec fn offer_message_type() -> Seq<char> {
    "plugin_channel_created"@
}

/// Message type of a reply to an acquire request.
pub open spec fn reply_message_type() -> Seq<char> {
    "plugin_channel"@
}

/// Message type of an acquire request.
pub open spec fn request_message_type() -> Seq<char> {
    "acquire_plugin_channel"@
}

/// The bootstrap broadcast sent once when the registry comes up, asking the
/// upstream peer to (re)announce every channel it has.
pub open spec fn bootstrap_message_type() -> Seq<char> {
    "request_plugin_channels"@
}

/// An inbound transport message, reduced to the fields this protocol reads.
///
/// A transport endpoint that came along with the message is represented by a
/// plain `u64` handle chosen by the runtime; the protocol only stores and
/// returns such handles, never looks inside them.
pub struct InboundMessage {
    pub msg_type: String,
    pub nonce: Option<String>,
    pub channel: Option<ChannelIdentity>,
    pub error: Option<String>,
    pub port: Option<u64>,
}

impl InboundMessage {
    /// A well-shaped channel offer: the right type, an identity, an endpoint.
    /// Anything else is silently ignored by the registry (the transport is
    /// shared, and many unrelated messages pass through).
    pub open spec fn is_offer(self) -> bool {
        &&& self.msg_type@ == offer_message_type()
        &&& self.channel is Some
        &&& self.port is Some
    }
}

/// The offer message type, as a string to compare inbound messages against.
pub fn offer_type_string() -> (r: String)
    ensures
        r@ == offer_message_type(),
{
    String::from_str("plugin_channel_created")
}

/// The reply message type, as a string to compare inbound messages against.
pub fn reply_type_string() -> (r: String)
    ensures
        r@ == reply_message_type(),
{
    String::from_str("plugin_channel")
}

/// An acquire request, as broadcast to the fixed upstream peer:
/// `{type: "acquire_plugin_channel", nonce, channel: {name, version}}`.
pub struct AcquireRequest {
    pub msg_type: String,
    pub nonce: String,
    pub channel: ChannelIdentity,
}

/// Build the one request an acquire call broadcasts.
pub fn build_acquire_request(nonce: &String, identity: &ChannelIdentity) -> (r: AcquireRequest)
    ensures
        r.msg_type@ == request_message_type(),
        r.nonce@ == nonce@,
        r.channel.key() == identity.key(),
        r.channel.name@ == identity.name@,
        r.channel.version@ == identity.version@,
{
    AcquireRequest {
        msg_type: String::from_str("acquire_plugin_channel"),
        nonce: nonce.clone(),
        channel: identity.clone_id(),
    }
}

/// Build the bootstrap broadcast: `"request_plugin_channels"`, no payload.
pub fn build_bootstrap_request() -> (r: String)
    ensures
        r@ == bootstrap_message_type(),
{
    String::from_str("request_plugin_channels")
}

} // verus!
