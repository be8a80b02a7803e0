//! What client and server share, as it shows on the wire.

use crate::protocol::error::Error;
use crate::protocol::json::{Json, JsonView};
use crate::protocol::laws::{lemma_text_on_wire, text_on_wire};
use crate::protocol::nostr::{tags_view, Event, EventId, PublicKey, Tag};
use crate::protocol::types::{EncryptionMode, GiftWrapMode, JsonRpcMessage};
use crate::transport::base::{BaseTransport, Outgoing, StartAction, StartEvent, Subscription};
use crate::transport::inbound::{
    classify, progress_token_of, unwrap_delivery, Delivery, Inbound, SkipReason,
};
use vstd::prelude::*;

verus! {

/// Whether a message of a kind is to be encrypted: never an announcement, nothing
/// where encryption is disabled, everything else where it is required, and
/// otherwise what is not known to answer something in the open.
pub open spec fn must_encrypt(mode: EncryptionMode, kind: u16, is_encrypted: Option<bool>) -> bool {
    &&& !(11316 <= kind <= 11320)
    &&& mode != EncryptionMode::Disabled
    &&& mode == EncryptionMode::Required || is_encrypted != Some(false)
}

/// Messages are encrypted as they must be.
pub proof fn law_encryption_decided(
    base: &BaseTransport,
    kind: u16,
    is_encrypted: Option<bool>,
    encrypt: bool,
)
    requires
        call_ensures(BaseTransport::should_encrypt, (base, kind, is_encrypted), encrypt),
    ensures
        encrypt == must_encrypt(base.encryption_mode, kind, is_encrypted),
{
}

/// A message goes to its recipient under its kind, with its tags and its text; in
/// the wanted gift wrap, or else a persistent one, exactly where it must be
/// encrypted.
pub proof fn law_message_sent(
    base: &BaseTransport,
    message: &JsonRpcMessage,
    recipient: &PublicKey,
    kind: u16,
    tags: Vec<Tag>,
    is_encrypted: Option<bool>,
    wrap_kind: Option<u16>,
    outgoing: Outgoing,
)
    requires
        call_ensures(
            BaseTransport::send_mcp_message,
            (base, message, recipient, kind, tags, is_encrypted, wrap_kind),
            outgoing,
        ),
    ensures
        outgoing.recipient@ == recipient@,
        outgoing.template.kind == kind,
        outgoing.template.content@ == text_on_wire(*message),
        tags_view(outgoing.template.tags@) == tags_view(tags@),
        outgoing.wrap_kind is Some <==> must_encrypt(base.encryption_mode, kind, is_encrypted),
        outgoing.wrap_kind is Some && wrap_kind is Some ==> outgoing.wrap_kind == wrap_kind,
        outgoing.wrap_kind is Some && wrap_kind is None ==> outgoing.wrap_kind == Some(1059u16),
{
    lemma_text_on_wire(*message);
    assert(outgoing@.template.tags == tags_view(tags@));
}

/// A message is addressed by one tag `p` with the key, and refers to an event by
/// one tag `e` with its id behind it.
pub proof fn law_addressed(key: &PublicKey, id: &EventId, plain: Vec<Tag>, referring: Vec<Tag>)
    requires
        call_ensures(BaseTransport::create_recipient_tags, (key,), plain),
        call_ensures(BaseTransport::create_response_tags, (key, id), referring),
    ensures
        plain@.len() == 1,
        plain@[0]@ == seq!["p"@, key@],
        referring@.len() == 2,
        referring@[0]@ == seq!["p"@, key@],
        referring@[1]@ == seq!["e"@, id@],
{
    assert(tags_view(plain@).len() == 1 && tags_view(referring@).len() == 2);
    assert(tags_view(plain@)[0] == plain@[0]@);
    assert(tags_view(referring@)[0] == referring@[0]@);
    assert(tags_view(referring@)[1] == referring@[1]@);
}

/// Whether a subscription brings all that is sent to a key: messages in the open
/// and gift wraps of either kind.
pub open spec fn listens_for(subscription: Subscription, key: Seq<char>) -> bool {
    &&& subscription.recipient@ == key
    &&& subscription.kinds@.contains(25910u16)
    &&& subscription.kinds@.contains(1059u16)
    &&& subscription.kinds@.contains(21059u16)
    &&& forall|i: int|
        0 <= i < subscription.kinds@.len() ==> {
            ||| #[trigger] subscription.kinds@[i] == 25910
            ||| subscription.kinds@[i] == 1059
            ||| subscription.kinds@[i] == 21059
        }
}

/// A key is subscribed to for all that is sent to it.
pub proof fn law_subscription(key: &PublicKey, subscription: Subscription)
    requires
        call_ensures(BaseTransport::subscribe_for_pubkey, (key,), subscription),
    ensures
        listens_for(subscription, key@),
{
    let kinds = subscription.kinds@;
    assert(kinds[0] == 25910 && kinds[1] == 1059 && kinds[2] == 21059);
}

/// Whether a step of starting a transport is followed by the right one: the relays
/// are connected where they are not, then the key is fetched, then it is listened
/// for what is sent to that key, then the transport runs; a failure ends the start
/// with its own reason, but for one to connect what is connected already.
pub open spec fn is_next_step(connected: bool, event: StartEvent, action: StartAction) -> bool {
    match event {
        StartEvent::Begin => if connected {
            action is FetchKey
        } else {
            action is Connect
        },
        StartEvent::Connected(attempt) => if connected || attempt is Ok {
            action is FetchKey
        } else {
            action == StartAction::Fail(attempt->Err_0)
        },
        StartEvent::KeyFetched(fetched) => match fetched {
            Ok(key) => action matches StartAction::Subscribe(subscription) && listens_for(
                subscription,
                key@,
            ),
            Err(error) => action == StartAction::Fail(error),
        },
        StartEvent::Subscribed(attempt) => match attempt {
            Ok(_) => action is Run,
            Err(error) => action == StartAction::Fail(error),
        },
    }
}

/// What is stated of a step is the right one.
pub(crate) proof fn lemma_next_step(connected: bool, event: StartEvent, action: StartAction)
    requires
        crate::transport::base::is_start_step(connected, event, action),
    ensures
        is_next_step(connected, event, action),
{
    if let StartAction::Subscribe(subscription) = action {
        let kinds = subscription.kinds@;
        assert(event is KeyFetched);
        assert(kinds[0] == 25910 && kinds[1] == 1059 && kinds[2] == 21059);
    }
}

/// Starting a transport goes step by step; it counts as connected once the relays
/// were connected.
pub proof fn law_start_steps(base: &mut BaseTransport, event: StartEvent, action: StartAction)
    requires
        call_ensures(BaseTransport::start, (base, event), action),
    ensures
        is_next_step(old(base).is_connected, event, action),
        final(base).encryption_mode == old(base).encryption_mode,
        final(base).is_connected <==> old(base).is_connected || (event matches StartEvent::Connected(
            attempt,
        ) && attempt is Ok),
{
    lemma_next_step(old(base).is_connected, event, action);
}

/// Connecting succeeds where it was done before or succeeds now, and disconnecting
/// where there is nothing to disconnect or it succeeds; either fails with the
/// reason of the attempt.
pub proof fn law_connection(
    up: &mut BaseTransport,
    down: &mut BaseTransport,
    attempt: Result<(), Error>,
    connected: Result<(), Error>,
    disconnected: Result<(), Error>,
)
    requires
        call_ensures(BaseTransport::connect, (up, attempt), connected),
        call_ensures(BaseTransport::disconnect, (down, attempt), disconnected),
    ensures
        connected is Ok <==> old(up).is_connected || attempt is Ok,
        final(up).is_connected <==> connected is Ok,
        connected is Err ==> connected == attempt,
        disconnected is Ok <==> !old(down).is_connected || attempt is Ok,
        final(down).is_connected <==> disconnected is Err,
        disconnected is Err ==> disconnected == attempt,
        final(up).encryption_mode == old(up).encryption_mode,
        final(down).encryption_mode == old(down).encryption_mode,
{
}

/// Whether a delivery hands on what an event in the open says.
pub open spec fn delivers_open(delivery: Delivery, event: Event) -> bool {
    &&& delivery.content@ == event.content@
    &&& delivery.sender@ == event.pubkey@
    &&& delivery.event_id@ == event.id@
    &&& !delivery.is_encrypted
    &&& delivery.wrap_kind is None
}

/// What a server does with an event: a gift wrap is opened exactly where its kind
/// is used, encryption is not disabled, and it was not opened before; any other
/// event is read exactly where encryption is not required, as what it says itself.
pub proof fn law_event_classified(
    mode: EncryptionMode,
    wraps: GiftWrapMode,
    is_seen: bool,
    event: &Event,
    inbound: Inbound,
)
    requires
        call_ensures(classify, (mode, wraps, is_seen, event), inbound),
    ensures
        ({
            let is_wrap = event.kind == 1059 || event.kind == 21059;
            let is_used = (event.kind == 1059 && wraps != GiftWrapMode::Ephemeral) || (event.kind
                == 21059 && wraps != GiftWrapMode::Persistent);
            &&& inbound is Decrypt <==> is_used && mode != EncryptionMode::Disabled && !is_seen
            &&& inbound is Deliver <==> !is_wrap && mode != EncryptionMode::Required
            &&& inbound matches Inbound::Deliver(delivery) ==> delivers_open(delivery, *event)
            &&& inbound matches Inbound::Skip(reason) ==> reason == if !is_wrap {
                SkipReason::EncryptionRequired
            } else if !is_used {
                SkipReason::WrapKindRefused
            } else if mode == EncryptionMode::Disabled {
                SkipReason::EncryptionDisabled
            } else {
                SkipReason::AlreadySeen
            }
        }),
{
    lemma_classified(mode, wraps, is_seen, *event, inbound);
}

/// What [`law_event_classified`] says, of what is stated.
pub(crate) proof fn lemma_classified(
    mode: EncryptionMode,
    wraps: GiftWrapMode,
    is_seen: bool,
    event: Event,
    inbound: Inbound,
)
    requires
        inbound@ == crate::transport::inbound::classified(mode, wraps, is_seen, event@),
    ensures
        ({
            let is_wrap = event.kind == 1059 || event.kind == 21059;
            let is_used = (event.kind == 1059 && wraps != GiftWrapMode::Ephemeral) || (event.kind
                == 21059 && wraps != GiftWrapMode::Persistent);
            &&& inbound is Decrypt <==> is_used && mode != EncryptionMode::Disabled && !is_seen
            &&& inbound is Deliver <==> !is_wrap && mode != EncryptionMode::Required
            &&& inbound matches Inbound::Deliver(delivery) ==> delivers_open(delivery, event)
            &&& inbound matches Inbound::Skip(reason) ==> reason == if !is_wrap {
                SkipReason::EncryptionRequired
            } else if !is_used {
                SkipReason::WrapKindRefused
            } else if mode == EncryptionMode::Disabled {
                SkipReason::EncryptionDisabled
            } else {
                SkipReason::AlreadySeen
            }
        }),
{
    match inbound {
        Inbound::Skip(reason) => {
            assert(inbound@ is Skip);
        },
        Inbound::Decrypt => {
            assert(inbound@ is Decrypt);
        },
        Inbound::Deliver(delivery) => {
            assert(inbound@ is Deliver);
        },
    }
}

/// Whether a delivery hands on what the event in a gift wrap says.
pub open spec fn delivers_wrapped(delivery: Delivery, inner: Event, wrap_kind: u16) -> bool {
    &&& delivery.content@ == inner.content@
    &&& delivery.sender@ == inner.pubkey@
    &&& delivery.event_id@ == inner.id@
    &&& delivery.is_encrypted
    &&& delivery.wrap_kind == Some(wrap_kind)
}

/// Out of a gift wrap comes what the event inside says, under its own id and from
/// its own sender, not those of the wrap.
pub proof fn law_wrap_opened(inner: Event, wrap_kind: u16, delivery: Delivery)
    requires
        call_ensures(unwrap_delivery, (inner, wrap_kind), delivery),
    ensures
        delivers_wrapped(delivery, inner, wrap_kind),
{
    assert(delivery@.is_encrypted);
}

/// Whether parameters give a progress token: the member `progressToken` of their
/// member `_meta`, where it is a text.
pub open spec fn gives_token(params: Option<Json>, token: Seq<char>) -> bool {
    &&& params matches Some(given)
    &&& given@ matches JsonView::Object(members)
    &&& members.contains_key("_meta"@)
    &&& members["_meta"@] matches JsonView::Object(meta)
    &&& meta.contains_key("progressToken"@)
    &&& meta["progressToken"@] == JsonView::Str(token)
}

/// The progress token of a request is the one that its parameters give.
pub proof fn law_progress_token(params: &Option<Json>, token: Option<String>)
    requires
        call_ensures(progress_token_of, (params,), token),
    ensures
        match token {
            Some(text) => gives_token(*params, text@),
            None => forall|text: Seq<char>| !gives_token(*params, text),
        },
{
}

} // verus!
