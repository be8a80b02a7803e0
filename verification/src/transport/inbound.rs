//! Events as they come in to a server, up to the message that they carry.

use crate::protocol::json::{member, text_of, Json, JsonView};
use crate::protocol::nostr::{Event, EventId, EventView, PublicKey};
use crate::protocol::types::{
    is_wrap_kind, EncryptionMode, GiftWrapMode, JsonRpcMessage, MessageView,
};
use crate::protocol::constants::{EPHEMERAL_GIFT_WRAP_KIND, GIFT_WRAP_KIND};
use vstd::prelude::*;

verus! {

/// An incoming MCP request with metadata for routing the response.
#[derive(Debug)]
pub struct IncomingRequest {
    /// The parsed MCP message.
    pub message: JsonRpcMessage,
    /// The client's public key (hex).
    pub client_pubkey: String,
    /// The Nostr event id (for response correlation).
    pub event_id: String,
    /// Whether the original message was encrypted.
    pub is_encrypted: bool,
}

/// What an [`IncomingRequest`] says.
pub struct IncomingView {
    pub message: MessageView,
    pub client_pubkey: Seq<char>,
    pub event_id: Seq<char>,
    pub is_encrypted: bool,
}

impl View for IncomingRequest {
    type V = IncomingView;

    open spec fn view(&self) -> IncomingView {
        IncomingView {
            message: self.message@,
            client_pubkey: self.client_pubkey@,
            event_id: self.event_id@,
            is_encrypted: self.is_encrypted,
        }
    }
}

/// The content of an event, in the open or out of its gift wrap.
#[derive(Debug)]
pub struct Delivery {
    /// The text that should hold a message.
    pub content: String,
    /// Who signed it.
    pub sender: PublicKey,
    /// The id of the event that holds the text itself.
    pub event_id: EventId,
    /// Whether it came in a gift wrap.
    pub is_encrypted: bool,
    /// The kind of that gift wrap.
    pub wrap_kind: Option<u16>,
}

/// What a [`Delivery`] says.
pub struct DeliveryView {
    pub content: Seq<char>,
    pub sender: Seq<char>,
    pub event_id: Seq<char>,
    pub is_encrypted: bool,
    pub wrap_kind: Option<u16>,
}

impl View for Delivery {
    type V = DeliveryView;

    open spec fn view(&self) -> DeliveryView {
        DeliveryView {
            content: self.content@,
            sender: self.sender@,
            event_id: self.event_id@,
            is_encrypted: self.is_encrypted,
            wrap_kind: self.wrap_kind,
        }
    }
}

/// Why an event is skipped.
#[derive(Debug, Clone, Copy, PartialEq, Eq, Structural)]
pub enum SkipReason {
    /// A gift wrap of a kind that is not accepted.
    WrapKindRefused,
    /// A gift wrap, where encryption is disabled.
    EncryptionDisabled,
    /// A gift wrap that was opened already.
    AlreadySeen,
    /// An event in the open, where encryption is required.
    EncryptionRequired,
}

/// What is to be done with an event.
#[derive(Debug)]
pub enum Inbound {
    /// Nothing.
    Skip(SkipReason),
    /// Decrypt the gift wrap.
    Decrypt,
    /// Read the message that it carries.
    Deliver(Delivery),
}

/// What an [`Inbound`] says.
pub enum InboundView {
    Skip(SkipReason),
    Decrypt,
    Deliver(DeliveryView),
}

impl View for Inbound {
    type V = InboundView;

    open spec fn view(&self) -> InboundView {
        match *self {
            Inbound::Skip(reason) => InboundView::Skip(reason),
            Inbound::Decrypt => InboundView::Decrypt,
            Inbound::Deliver(delivery) => InboundView::Deliver(delivery@),
        }
    }
}

/// The delivery of an event in the open.
pub open spec fn open_delivery(event: EventView) -> DeliveryView {
    DeliveryView {
        content: event.content,
        sender: event.pubkey,
        event_id: event.id,
        is_encrypted: false,
        wrap_kind: None,
    }
}

/// The delivery of an event out of its gift wrap.
pub open spec fn wrapped_delivery(inner: EventView, wrap_kind: u16) -> DeliveryView {
    DeliveryView {
        content: inner.content,
        sender: inner.pubkey,
        event_id: inner.id,
        is_encrypted: true,
        wrap_kind: Some(wrap_kind),
    }
}

/// What is to be done with an event, given which gift wraps were opened.
pub open spec fn classified(
    mode: EncryptionMode,
    wraps: GiftWrapMode,
    is_seen: bool,
    event: EventView,
) -> InboundView {
    if is_wrap_kind(event.kind) {
        if !wraps.accepts(event.kind) {
            InboundView::Skip(SkipReason::WrapKindRefused)
        } else if mode == EncryptionMode::Disabled {
            InboundView::Skip(SkipReason::EncryptionDisabled)
        } else if is_seen {
            InboundView::Skip(SkipReason::AlreadySeen)
        } else {
            InboundView::Decrypt
        }
    } else if mode == EncryptionMode::Required {
        InboundView::Skip(SkipReason::EncryptionRequired)
    } else {
        InboundView::Deliver(open_delivery(event))
    }
}

/// Decides what is to be done with an event.
pub fn classify(mode: EncryptionMode, wraps: GiftWrapMode, is_seen: bool, event: &Event) -> (inbound:
    Inbound)
    ensures
        inbound@ == classified(mode, wraps, is_seen, event@),
{
    if event.kind == GIFT_WRAP_KIND || event.kind == EPHEMERAL_GIFT_WRAP_KIND {
        if !wraps.allows_kind(event.kind) {
            return Inbound::Skip(SkipReason::WrapKindRefused);
        }
        if mode == EncryptionMode::Disabled {
            return Inbound::Skip(SkipReason::EncryptionDisabled);
        }
        if is_seen {
            return Inbound::Skip(SkipReason::AlreadySeen);
        }
        return Inbound::Decrypt;
    }
    if mode == EncryptionMode::Required {
        return Inbound::Skip(SkipReason::EncryptionRequired);
    }
    Inbound::Deliver(
        Delivery {
            content: event.content.clone(),
            sender: event.pubkey.clone(),
            event_id: event.id.clone(),
            is_encrypted: false,
            wrap_kind: None,
        },
    )
}

/// The delivery of an event out of its gift wrap.
pub fn unwrap_delivery(inner: Event, wrap_kind: u16) -> (delivery: Delivery)
    ensures
        delivery@ == wrapped_delivery(inner@, wrap_kind),
{
    Delivery {
        content: inner.content,
        sender: inner.pubkey,
        event_id: inner.id,
        is_encrypted: true,
        wrap_kind: Some(wrap_kind),
    }
}

/// The progress token that a request gives along.
pub open spec fn progress_token(params: Option<JsonView>) -> Option<Seq<char>> {
    match params {
        Some(p) => match member(p, "_meta"@) {
            Some(meta) => match member(meta, "progressToken"@) {
                Some(token) => text_of(token),
                None => None,
            },
            None => None,
        },
        None => None,
    }
}

/// The progress token that a request gives along.
pub fn progress_token_of(params: &Option<Json>) -> (token: Option<String>)
    ensures
        crate::util::text::optional_text(token) == progress_token(
            crate::protocol::types::optional_view(*params),
        ),
{
    match params {
        Some(p) => match p.get("_meta") {
            Some(meta) => match meta.get("progressToken") {
                Some(token) => match token.as_str() {
                    Some(text) => Some(text.to_owned()),
                    None => None,
                },
                None => None,
            },
            None => None,
        },
        None => None,
    }
}

/// Where encryption is required nothing in the open is read, where it is
/// disabled no gift wrap is opened, and a gift wrap is opened only where its
/// kind is accepted and it was not opened before. Where encryption is optional,
/// events in the open are read and gift wraps of an accepted kind are opened.
pub proof fn law_inbound_policy(
    mode: EncryptionMode,
    wraps: GiftWrapMode,
    is_seen: bool,
    event: EventView,
)
    ensures
        mode == EncryptionMode::Required ==> classified(mode, wraps, is_seen, event) !is Deliver,
        mode == EncryptionMode::Disabled ==> classified(mode, wraps, is_seen, event) !is Decrypt,
        classified(mode, wraps, is_seen, event) is Decrypt ==> wraps.accepts(event.kind)
            && !is_seen,
        mode == EncryptionMode::Optional && !is_wrap_kind(event.kind) ==> classified(
            mode,
            wraps,
            is_seen,
            event,
        ) is Deliver,
        mode != EncryptionMode::Disabled && wraps.accepts(event.kind) && !is_seen ==> classified(
            mode,
            wraps,
            is_seen,
            event,
        ) is Decrypt,
{
}

} // verus!
