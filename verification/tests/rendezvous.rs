use rcade_sdk::identity::ChannelIdentity;
use rcade_sdk::errors::ChannelError;
use rcade_sdk::messages::{build_acquire_request, build_bootstrap_request, InboundMessage};
use rcade_sdk::nonce::{make_nonce, u64_to_decimal};
use rcade_sdk::registry::{AcquireOutcome, OfferAction, RendezvousRegistry};
use rcade_sdk::requester::{RendezvousRequester, ReplyAction};

fn id(name: &str, version: &str) -> ChannelIdentity {
    ChannelIdentity::new(name.to_string(), version.to_string())
}

fn offer_message(name: &str, version: &str, port: u64) -> InboundMessage {
    InboundMessage {
        msg_type: "plugin_channel_created".to_string(),
        nonce: None,
        channel: Some(id(name, version)),
        error: None,
        port: Some(port),
    }
}

fn reply_message(nonce: &str, name: &str, version: &str, port: u64) -> InboundMessage {
    InboundMessage {
        msg_type: "plugin_channel".to_string(),
        nonce: Some(nonce.to_string()),
        channel: Some(id(name, version)),
        error: None,
        port: Some(port),
    }
}

#[test]
fn canonical_key_concatenates_with_colon() {
    assert_eq!(id("demo", "1.0.0").canonical_key(), "demo:1.0.0");
    assert_eq!(id("", "").canonical_key(), ":");
    assert_eq!(id("@rcade/input-classic", "1.0.0").canonical_key(), "@rcade/input-classic:1.0.0");
}

#[test]
fn nonce_rendering_is_decimal_concatenation() {
    assert_eq!(u64_to_decimal(0), "0");
    assert_eq!(u64_to_decimal(7), "7");
    assert_eq!(u64_to_decimal(10), "10");
    assert_eq!(u64_to_decimal(987654321012345), "987654321012345");
    assert_eq!(u64_to_decimal(u64::MAX), "18446744073709551615");
    assert_eq!(make_nonce(123, 456), "123456");
    assert_eq!(make_nonce(0, 0), "00");
}

#[test]
fn bootstrap_and_request_messages_have_wire_shapes() {
    assert_eq!(build_bootstrap_request(), "request_plugin_channels");
    let request = build_acquire_request(&"n-1".to_string(), &id("demo", "1.0.0"));
    assert_eq!(request.msg_type, "acquire_plugin_channel");
    assert_eq!(request.nonce, "n-1");
    assert_eq!(request.channel.name, "demo");
    assert_eq!(request.channel.version, "1.0.0");
}

#[test]
fn registry_starts_empty_and_broadcasts_bootstrap() {
    let (mut registry, bootstrap) = RendezvousRegistry::new();
    assert_eq!(bootstrap, "request_plugin_channels");
    // nothing offered yet: an acquire goes pending
    assert_eq!(registry.acquire(&id("demo", "1.0.0"), 11), AcquireOutcome::Pending);
}

#[test]
fn acquire_then_offer_resolves_once() {
    let (mut registry, _) = RendezvousRegistry::new();
    let demo = id("demo", "1.0.0");
    assert_eq!(registry.acquire(&demo, 11), AcquireOutcome::Pending);
    // the offer matches the pending request and resolves it
    assert_eq!(registry.handle_offer(&demo, 77), OfferAction::Resolved { resolver: 11, port: 77 });
    // a later offer for a different unmatched identity does not disturb it
    assert_eq!(registry.handle_offer(&id("other", "2.0.0"), 78), OfferAction::Stored);
    // the identity resolved exactly once: a repeat offer finds nothing pending
    assert_eq!(registry.handle_offer(&demo, 79), OfferAction::Stored);
}

#[test]
fn offer_then_acquire_resolves_once() {
    let (mut registry, _) = RendezvousRegistry::new();
    let demo = id("demo", "1.0.0");
    assert_eq!(registry.handle_offer(&demo, 77), OfferAction::Stored);
    // the stored offer is consumed synchronously
    assert_eq!(registry.acquire(&demo, 11), AcquireOutcome::Ready { port: 77 });
    // consumed means gone: the next acquire goes pending again
    assert_eq!(registry.acquire(&demo, 12), AcquireOutcome::Pending);
}

#[test]
fn second_offer_overwrites_unconsumed_first() {
    let (mut registry, _) = RendezvousRegistry::new();
    let demo = id("demo", "1.0.0");
    assert_eq!(registry.handle_offer(&demo, 70), OfferAction::Stored);
    assert_eq!(registry.handle_offer(&demo, 71), OfferAction::Stored);
    // last write wins
    assert_eq!(registry.acquire(&demo, 11), AcquireOutcome::Ready { port: 71 });
}

#[test]
fn second_acquire_overwrites_first_continuation() {
    let (mut registry, _) = RendezvousRegistry::new();
    let demo = id("demo", "1.0.0");
    assert_eq!(registry.acquire(&demo, 11), AcquireOutcome::Pending);
    assert_eq!(registry.acquire(&demo, 12), AcquireOutcome::Pending);
    // the overwritten continuation never fires; the later one does
    assert_eq!(registry.handle_offer(&demo, 77), OfferAction::Resolved { resolver: 12, port: 77 });
}

#[test]
fn registry_ignores_unrecognized_messages() {
    let (mut registry, _) = RendezvousRegistry::new();
    let demo = id("demo", "1.0.0");
    assert_eq!(registry.acquire(&demo, 11), AcquireOutcome::Pending);
    // wrong type
    let mut msg = offer_message("demo", "1.0.0", 77);
    msg.msg_type = "something_else".to_string();
    assert_eq!(registry.handle_message(&msg), None);
    // offer without an endpoint
    let mut msg = offer_message("demo", "1.0.0", 77);
    msg.port = None;
    assert_eq!(registry.handle_message(&msg), None);
    // offer without an identity
    let mut msg = offer_message("demo", "1.0.0", 77);
    msg.channel = None;
    assert_eq!(registry.handle_message(&msg), None);
    // the well-shaped offer still resolves the untouched pending request
    assert_eq!(
        registry.handle_message(&offer_message("demo", "1.0.0", 77)),
        Some(OfferAction::Resolved { resolver: 11, port: 77 })
    );
}

#[test]
fn requester_ignores_foreign_traffic() {
    let (mut requester, _) = RendezvousRequester::new("n-1".to_string(), &id("demo", "1.0.0"));
    // unrelated message type
    let mut msg = reply_message("n-1", "demo", "1.0.0", 77);
    msg.msg_type = "plugin_channel_created".to_string();
    assert_eq!(requester.on_message(&msg), ReplyAction::Ignore);
    // foreign nonce
    assert_eq!(
        requester.on_message(&reply_message("n-2", "demo", "1.0.0", 77)),
        ReplyAction::Ignore
    );
    // matching nonce but no endpoint delivered: keep waiting
    let mut msg = reply_message("n-1", "demo", "1.0.0", 77);
    msg.port = None;
    assert_eq!(requester.on_message(&msg), ReplyAction::Ignore);
    assert!(!requester.is_completed());
    // the real reply still resolves
    assert_eq!(
        requester.on_message(&reply_message("n-1", "demo", "1.0.0", 77)),
        ReplyAction::Resolve { port: 77 }
    );
    assert!(requester.is_completed());
}

#[test]
fn requester_resolves_at_most_once() {
    let (mut requester, _) = RendezvousRequester::new("n-1".to_string(), &id("demo", "1.0.0"));
    assert_eq!(
        requester.on_message(&reply_message("n-1", "demo", "1.0.0", 77)),
        ReplyAction::Resolve { port: 77 }
    );
    // unsubscribed: even an identical reply is ignored
    assert_eq!(
        requester.on_message(&reply_message("n-1", "demo", "1.0.0", 78)),
        ReplyAction::Ignore
    );
}

#[test]
fn requester_surfaces_denial_as_typed_failure() {
    let (mut requester, _) = RendezvousRequester::new("n-1".to_string(), &id("demo", "1.0.0"));
    let mut msg = reply_message("n-1", "demo", "1.0.0", 77);
    msg.error = Some("denied".to_string());
    let action = requester.on_message(&msg);
    assert_eq!(action, ReplyAction::Reject { error: "denied".to_string() });
    assert!(requester.is_completed());
    assert_eq!(
        action.into_completion(),
        Some(Err(ChannelError::ChannelDenied { message: "denied".to_string() }))
    );
    assert_eq!(ReplyAction::Ignore.into_completion(), None);
    assert_eq!(
        (ReplyAction::Resolve { port: 5 }).into_completion(),
        Some(Ok(5))
    );
}

#[test]
fn full_rendezvous_scenario_three_messages() {
    // requester side calls acquire("demo","1.0.0")
    let mut messages: usize = 0;
    let (mut registry, _bootstrap) = RendezvousRegistry::new();
    messages += 1; // the registry's bootstrap broadcast
    let demo = id("demo", "1.0.0");
    let nonce = make_nonce(4242, 99);
    let (mut requester, request) = RendezvousRequester::new(nonce.clone(), &demo);
    messages += 1; // the one acquire request
    assert_eq!(request.nonce, nonce);
    // no offer yet: the broker stores a pending request under the identity
    assert_eq!(registry.acquire(&demo, 11), AcquireOutcome::Pending);
    // the offer arrives later and matches the pending request
    let offer = offer_message("demo", "1.0.0", 77);
    messages += 1; // the one offer broadcast
    let action = registry.handle_message(&offer);
    assert_eq!(action, Some(OfferAction::Resolved { resolver: 11, port: 77 }));
    // the continuation's reply resolves the requester with the endpoint
    let reply = reply_message(&nonce, "demo", "1.0.0", 77);
    assert_eq!(requester.on_message(&reply), ReplyAction::Resolve { port: 77 });
    assert_eq!(requester.on_message(&reply).into_completion(), None);
    assert_eq!(messages, 3); // bootstrap + 1 request + 1 offer
}
