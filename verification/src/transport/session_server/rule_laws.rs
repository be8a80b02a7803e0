//! What holds of a server beyond single calls: what can be set and taken, and
//! which rules it shares.

use crate::protocol::json::Json;
use crate::protocol::nostr::{tags_view, Tag};
use crate::protocol::types::{
    CapabilityExclusion, EncryptionMode, GiftWrapMode, JsonRpcMessage, ServerInfo,
};
use crate::transport::policy;
use crate::transport::session_server::NostrServerTransport;
use crate::transport::session_server::session::ClientSession;
use crate::util::time::is_reading;
use vstd::prelude::*;

verus! {

/// A new session is one in which nothing has happened yet.
pub proof fn law_session_created(is_encrypted: bool, session: ClientSession)
    requires
        call_ensures(ClientSession::new, (is_encrypted,), session),
    ensures
        !session.is_initialized,
        session.is_encrypted == is_encrypted,
        !session.has_sent_common_tags,
        is_reading(session.last_activity),
        forall|event_id: Seq<char>| !#[trigger] session.pending_requests@.contains_key(event_id),
        forall|token: Seq<char>| !#[trigger] session.progress_token_to_event@.contains_key(token),
{
    assert(session.pending_requests@ == session@.pending_requests);
    assert(session.progress_token_to_event@ == session@.progress_token_to_event);
    assert(session.is_initialized == session@.is_initialized);
    assert(session.is_encrypted == session@.is_encrypted);
    assert(session.has_sent_common_tags == session@.has_sent_common_tags);
}

/// That a client was active is noted by a reading of the clock, and nothing else
/// of its session changes.
pub proof fn law_activity_noted(session: &mut ClientSession)
    requires
        call_ensures(ClientSession::update_activity, (session,), ()),
    ensures
        is_reading(final(session).last_activity),
        final(session).is_initialized == old(session).is_initialized,
        final(session).is_encrypted == old(session).is_encrypted,
        final(session).has_sent_common_tags == old(session).has_sent_common_tags,
        final(session).pending_requests@ == old(session).pending_requests@,
        final(session).progress_token_to_event@ == old(session).progress_token_to_event@,
{
    assert(final(session)@.pending_requests == old(session)@.pending_requests);
    assert(final(session)@.progress_token_to_event == old(session)@.progress_token_to_event);
    assert(final(session)@.is_initialized == old(session)@.is_initialized);
    assert(final(session)@.is_encrypted == old(session)@.is_encrypted);
    assert(final(session)@.has_sent_common_tags == old(session)@.has_sent_common_tags);
}

/// What comes in can be taken from a server once.
pub proof fn law_receiver_taken_once(server: &mut NostrServerTransport, taken: bool)
    requires
        call_ensures(NostrServerTransport::take_message_receiver, (server,), taken),
    ensures
        taken == old(server).has_message_receiver,
        !final(server).has_message_receiver,
        final(server).config == old(server).config,
        final(server).sessions@ == old(server).sessions@,
{
}

/// The extra tags and the pricing tags are those that were set last, and nothing
/// else changes with them.
pub proof fn law_tags_set(
    extended: &mut NostrServerTransport,
    priced: &mut NostrServerTransport,
    tags: Vec<Tag>,
)
    requires
        call_ensures(NostrServerTransport::set_announcement_extra_tags, (extended, tags), ()),
        call_ensures(NostrServerTransport::set_announcement_pricing_tags, (priced, tags), ()),
    ensures
        final(extended).extra_common_tags@ == tags@,
        final(extended).pricing_tags@ == old(extended).pricing_tags@,
        final(extended).config == old(extended).config,
        final(extended).sessions@ == old(extended).sessions@,
        final(priced).pricing_tags@ == tags@,
        final(priced).extra_common_tags@ == old(priced).extra_common_tags@,
        final(priced).config == old(priced).config,
        final(priced).sessions@ == old(priced).sessions@,
{
}

/// The rules of a server are those that hold for all servers: which calls are
/// excluded, what describes it, how a refusal reads, and which gift wrap answers
/// are sent in.
pub proof fn law_rules_shared(
    excluded: &[CapabilityExclusion],
    method: &str,
    name: Option<&str>,
    info: Option<&ServerInfo>,
    request_id: &Json,
    mode: GiftWrapMode,
    is_encrypted: bool,
    mirrored: Option<u16>,
    excuses: (bool, bool),
    descriptions: (Vec<Tag>, Vec<Tag>),
    refusals: (JsonRpcMessage, JsonRpcMessage),
    wraps: (Option<u16>, Option<u16>),
)
    requires
        call_ensures(
            NostrServerTransport::is_capability_excluded,
            (excluded, method, name),
            excuses.0,
        ),
        call_ensures(policy::is_capability_excluded, (excluded, method, name), excuses.1),
        call_ensures(NostrServerTransport::server_info_tags, (info,), descriptions.0),
        call_ensures(policy::server_info_tags, (info,), descriptions.1),
        call_ensures(NostrServerTransport::unauthorized_error_response, (request_id,), refusals.0),
        call_ensures(policy::unauthorized_error_response, (request_id,), refusals.1),
        call_ensures(
            NostrServerTransport::select_outbound_gift_wrap_kind,
            (mode, is_encrypted, mirrored),
            wraps.0,
        ),
        call_ensures(
            policy::select_outbound_gift_wrap_kind,
            (mode, is_encrypted, mirrored),
            wraps.1,
        ),
    ensures
        excuses.0 == excuses.1,
        tags_view(descriptions.0@) == tags_view(descriptions.1@),
        refusals.0@ == refusals.1@,
        wraps.0 == wraps.1,
{
}

/// The tags that a server adds to others are those that all servers add.
pub proof fn law_added_tags_shared(
    capable: &mut Vec<Tag>,
    capable_too: &mut Vec<Tag>,
    told: &mut Vec<Tag>,
    told_too: &mut Vec<Tag>,
    info: Option<&ServerInfo>,
    extra: &[Tag],
    mode: EncryptionMode,
    wraps: GiftWrapMode,
)
    requires
        tags_view(capable@) == tags_view(capable_too@),
        tags_view(told@) == tags_view(told_too@),
        call_ensures(
            NostrServerTransport::append_transport_capability_tags,
            (capable, mode, wraps),
            (),
        ),
        call_ensures(policy::append_transport_capability_tags, (capable_too, mode, wraps), ()),
        call_ensures(
            NostrServerTransport::append_common_response_tags,
            (told, info, extra, mode, wraps),
            (),
        ),
        call_ensures(
            policy::append_common_response_tags,
            (told_too, info, extra, mode, wraps),
            (),
        ),
    ensures
        tags_view(final(capable)@) == tags_view(final(capable_too)@),
        tags_view(final(told)@) == tags_view(final(told_too)@),
{
}

} // verus!
