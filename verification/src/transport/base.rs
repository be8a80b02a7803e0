//! What the client and the server transport share.

use crate::protocol::constants::{
    is_announcement_kind, is_unencrypted_kind, tags, CTXVM_MESSAGES_KIND, EPHEMERAL_GIFT_WRAP_KIND,
    GIFT_WRAP_KIND,
};
use crate::protocol::error::Error;
use crate::protocol::nostr::{
    push_tag, tags_view, EventId, EventTemplate, PublicKey, Tag, TemplateView,
};
use crate::protocol::serializers::mcp_to_nostr_event;
use crate::protocol::types::{EncryptionMode, JsonRpcMessage, MessageView};
use crate::protocol::validation::{valid_content, validate_and_parse};
use crate::protocol::wire::message_text;
use vstd::prelude::*;

verus! {

/// Shared transport state of client and server.
#[derive(Debug)]
pub struct BaseTransport {
    pub encryption_mode: EncryptionMode,
    pub is_connected: bool,
}

/// A message that is ready to be signed and sent.
#[derive(Debug)]
pub struct Outgoing {
    /// The event to sign.
    pub template: EventTemplate,
    /// Whom it is for.
    pub recipient: PublicKey,
    /// The kind of the gift wrap to send it in; `None` sends it in the open.
    pub wrap_kind: Option<u16>,
}

/// What an [`Outgoing`] message says.
pub struct OutgoingView {
    pub template: TemplateView,
    pub recipient: Seq<char>,
    pub wrap_kind: Option<u16>,
}

impl View for Outgoing {
    type V = OutgoingView;

    open spec fn view(&self) -> OutgoingView {
        OutgoingView {
            template: self.template@,
            recipient: self.recipient@,
            wrap_kind: self.wrap_kind,
        }
    }
}

/// The events that a transport listens to: those of these kinds that address
/// this key, from now on.
#[derive(Debug)]
pub struct Subscription {
    pub kinds: Vec<u16>,
    pub recipient: PublicKey,
}

/// The kinds of event that a transport listens to: messages in the open, and
/// gift wraps of either kind.
pub open spec fn subscribed_kinds() -> Seq<u16> {
    seq![CTXVM_MESSAGES_KIND, GIFT_WRAP_KIND, EPHEMERAL_GIFT_WRAP_KIND]
}

/// Whether a message of that kind is encrypted.
pub open spec fn encrypts(mode: EncryptionMode, kind: u16, is_encrypted: Option<bool>) -> bool {
    if is_announcement_kind(kind) {
        false
    } else {
        match mode {
            EncryptionMode::Disabled => false,
            EncryptionMode::Required => true,
            EncryptionMode::Optional => match is_encrypted {
                Some(encrypted) => encrypted,
                None => true,
            },
        }
    }
}

/// The gift wrap that a message of that kind is sent in.
pub open spec fn chosen_wrap(
    mode: EncryptionMode,
    kind: u16,
    is_encrypted: Option<bool>,
    wrap_kind: Option<u16>,
) -> Option<u16> {
    if encrypts(mode, kind, is_encrypted) {
        match wrap_kind {
            Some(wanted) => Some(wanted),
            None => Some(GIFT_WRAP_KIND),
        }
    } else {
        None
    }
}

/// A message as it is sent.
pub open spec fn sent_message(
    mode: EncryptionMode,
    message: MessageView,
    recipient: Seq<char>,
    kind: u16,
    tags: Seq<Seq<Seq<char>>>,
    is_encrypted: Option<bool>,
    wrap_kind: Option<u16>,
) -> OutgoingView {
    OutgoingView {
        template: TemplateView { kind, content: message_text(message), tags },
        recipient,
        wrap_kind: chosen_wrap(mode, kind, is_encrypted, wrap_kind),
    }
}

/// The tags that address a key.
pub open spec fn recipient_tags(key: Seq<char>) -> Seq<Seq<Seq<char>>> {
    seq![seq![tags::PUBKEY@, key]]
}

/// The tags that address a key and refer to an event.
pub open spec fn response_tags(key: Seq<char>, event_id: Seq<char>) -> Seq<Seq<Seq<char>>> {
    seq![seq![tags::PUBKEY@, key], seq![tags::EVENT_ID@, event_id]]
}

/// What has happened while a transport is being started.
pub enum StartEvent {
    /// It was asked to start.
    Begin,
    /// The relays were connected, or not.
    Connected(Result<(), Error>),
    /// The signer's key was fetched, or not.
    KeyFetched(Result<PublicKey, Error>),
    /// The subscription was made, or not.
    Subscribed(Result<(), Error>),
}

/// What is to be done next to start a transport.
pub enum StartAction {
    /// Connect the relays.
    Connect,
    /// Fetch the signer's key.
    FetchKey,
    /// Subscribe.
    Subscribe(Subscription),
    /// Run the loops: the transport has started.
    Run,
    /// Give up.
    Fail(Error),
}

/// Whether the relays are connected after a step of starting a transport.
pub open spec fn connected_after(connected: bool, event: StartEvent) -> bool {
    connected || (event matches StartEvent::Connected(attempt) && attempt is Ok)
}

/// Whether an action is the next step of starting a transport: connect the
/// relays where they are not connected, fetch the signer's key, subscribe for
/// it, run. The first failure ends the start.
pub open spec fn is_start_step(connected: bool, event: StartEvent, action: StartAction) -> bool {
    match event {
        StartEvent::Begin => action == if connected {
            StartAction::FetchKey
        } else {
            StartAction::Connect
        },
        StartEvent::Connected(Ok(_)) => action == StartAction::FetchKey,
        StartEvent::Connected(Err(error)) => action == if connected {
            StartAction::FetchKey
        } else {
            StartAction::Fail(error)
        },
        StartEvent::KeyFetched(Ok(key)) => action matches StartAction::Subscribe(subscription)
            && subscription.kinds@ == subscribed_kinds() && subscription.recipient@ == key@,
        StartEvent::KeyFetched(Err(error)) => action == StartAction::Fail(error),
        StartEvent::Subscribed(Ok(_)) => action == StartAction::Run,
        StartEvent::Subscribed(Err(error)) => action == StartAction::Fail(error),
    }
}

impl BaseTransport {
    /// Takes note of an attempt to connect the relays, which is only made where
    /// the transport is not connected yet.
    pub fn connect(&mut self, attempt: Result<(), Error>) -> (result: Result<(), Error>)
        ensures
            final(self).encryption_mode == old(self).encryption_mode,
            final(self).is_connected == (old(self).is_connected || attempt is Ok),
            result == if old(self).is_connected {
                Ok::<(), Error>(())
            } else {
                attempt
            },
    {
        if self.is_connected {
            return Ok(());
        }
        if attempt.is_ok() {
            self.is_connected = true;
        }
        attempt
    }

    /// Takes note of an attempt to disconnect the relays, which is only made
    /// where the transport is connected.
    pub fn disconnect(&mut self, attempt: Result<(), Error>) -> (result: Result<(), Error>)
        ensures
            final(self).encryption_mode == old(self).encryption_mode,
            final(self).is_connected == (old(self).is_connected && attempt is Err),
            result == if old(self).is_connected {
                attempt
            } else {
                Ok::<(), Error>(())
            },
    {
        if !self.is_connected {
            return Ok(());
        }
        if attempt.is_ok() {
            self.is_connected = false;
        }
        attempt
    }

    /// The subscription to events targeting a key (both regular and encrypted).
    pub fn subscribe_for_pubkey(pubkey: &PublicKey) -> (subscription: Subscription)
        ensures
            subscription.kinds@ == subscribed_kinds(),
            subscription.recipient@ == pubkey@,
    {
        let mut kinds: Vec<u16> = Vec::new();
        kinds.push(CTXVM_MESSAGES_KIND);
        kinds.push(GIFT_WRAP_KIND);
        kinds.push(EPHEMERAL_GIFT_WRAP_KIND);
        proof {
            assert(kinds@ =~= subscribed_kinds());
        }
        Subscription { kinds, recipient: pubkey.clone() }
    }

    /// Decides the next step of starting a transport.
    pub fn start(&mut self, event: StartEvent) -> (action: StartAction)
        ensures
            final(self).encryption_mode == old(self).encryption_mode,
            final(self).is_connected == connected_after(old(self).is_connected, event),
            is_start_step(old(self).is_connected, event, action),
    {
        match event {
            StartEvent::Begin => if self.is_connected {
                StartAction::FetchKey
            } else {
                StartAction::Connect
            },
            StartEvent::Connected(attempt) => match self.connect(attempt) {
                Ok(_) => StartAction::FetchKey,
                Err(error) => StartAction::Fail(error),
            },
            StartEvent::KeyFetched(Ok(key)) => StartAction::Subscribe(
                Self::subscribe_for_pubkey(&key),
            ),
            StartEvent::KeyFetched(Err(error)) => StartAction::Fail(error),
            StartEvent::Subscribed(Ok(_)) => StartAction::Run,
            StartEvent::Subscribed(Err(error)) => StartAction::Fail(error),
        }
    }

    /// Convert a Nostr event's content to an MCP message with validation.
    pub fn convert_event_to_mcp(&self, content: &str) -> (message: Option<JsonRpcMessage>)
        ensures
            match message {
                Some(m) => valid_content(content@) == Some(m@),
                None => valid_content(content@) is None,
            },
    {
        validate_and_parse(content)
    }

    /// Determine whether a message should be encrypted.
    pub fn should_encrypt(&self, kind: u16, is_encrypted: Option<bool>) -> (encrypt: bool)
        ensures
            encrypt == encrypts(self.encryption_mode, kind, is_encrypted),
    {
        // Announcement kinds are never encrypted
        if is_unencrypted_kind(kind) {
            return false;
        }
        match self.encryption_mode {
            EncryptionMode::Disabled => false,
            EncryptionMode::Required => true,
            EncryptionMode::Optional => is_encrypted.unwrap_or(true),
        }
    }

    /// Prepares an MCP message for a recipient, optionally in a gift wrap.
    pub fn send_mcp_message(
        &self,
        message: &JsonRpcMessage,
        recipient: &PublicKey,
        kind: u16,
        tags: Vec<Tag>,
        is_encrypted: Option<bool>,
        gift_wrap_kind: Option<u16>,
    ) -> (outgoing: Outgoing)
        ensures
            outgoing@ == sent_message(
                self.encryption_mode,
                message@,
                recipient@,
                kind,
                tags_view(tags@),
                is_encrypted,
                gift_wrap_kind,
            ),
    {
        let wrap_kind = if self.should_encrypt(kind, is_encrypted) {
            match gift_wrap_kind {
                Some(wanted) => Some(wanted),
                None => Some(GIFT_WRAP_KIND),
            }
        } else {
            None
        };
        Outgoing {
            template: mcp_to_nostr_event(message, kind, tags),
            recipient: recipient.clone(),
            wrap_kind,
        }
    }

    /// Create recipient tags for targeting a specific pubkey.
    pub fn create_recipient_tags(pubkey: &PublicKey) -> (created: Vec<Tag>)
        ensures
            tags_view(created@) == recipient_tags(pubkey@),
    {
        let mut created: Vec<Tag> = Vec::new();
        push_tag(&mut created, Tag::public_key(pubkey));
        proof {
            assert(tags_view(created@) =~= recipient_tags(pubkey@));
        }
        created
    }

    /// Create response tags (recipient + correlated event).
    pub fn create_response_tags(pubkey: &PublicKey, event_id: &EventId) -> (created: Vec<Tag>)
        ensures
            tags_view(created@) == response_tags(pubkey@, event_id@),
    {
        let mut created: Vec<Tag> = Vec::new();
        push_tag(&mut created, Tag::public_key(pubkey));
        push_tag(&mut created, Tag::event(event_id));
        proof {
            assert(tags_view(created@) =~= response_tags(pubkey@, event_id@));
        }
        created
    }
}

/// Announcements are never encrypted; of the rest nothing is encrypted where
/// encryption is disabled, and everything where it is required. Where it is
/// optional, a message follows the one that it answers, and is encrypted where
/// it answers none.
pub proof fn law_encryption_policy(mode: EncryptionMode, kind: u16, is_encrypted: Option<bool>)
    ensures
        is_announcement_kind(kind) ==> !encrypts(mode, kind, is_encrypted),
        mode == EncryptionMode::Disabled ==> !encrypts(mode, kind, is_encrypted),
        mode == EncryptionMode::Required && !is_announcement_kind(kind) ==> encrypts(
            mode,
            kind,
            is_encrypted,
        ),
        mode == EncryptionMode::Optional && !is_announcement_kind(kind) ==> encrypts(
            mode,
            kind,
            is_encrypted,
        ) == (is_encrypted != Some(false)),
{
}

} // verus!
