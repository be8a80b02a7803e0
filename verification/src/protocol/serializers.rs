//! Messages in Nostr events.

use crate::protocol::json::{json_parse, layout_text, parse};
use crate::protocol::members::{
    find_value_text, listed, members_of, read_members, value_text,
};
use crate::protocol::nostr::{tags_view, EventTemplate, Tag, TemplateView};
use crate::protocol::types::{JsonRpcMessage, MessageView};
use crate::protocol::wire::{
    law_message_members_round_trip, lemma_written_members, message_fits, message_layout,
    message_of_members, message_text, read_members_message, settled_message, write_message,
};
use vstd::prelude::*;

verus! {

/// The message that a text holds.
pub open spec fn message_of_text(text: Seq<char>) -> Option<MessageView> {
    match json_parse(text) {
        Some(value) => {
            let members = members_of(text);
            message_of_members(value, members, members_of(value_text(members, "error"@)))
        },
        None => None,
    }
}

/// The value of the first tag of that name that has one.
pub open spec fn tag_value(tags: Seq<Seq<Seq<char>>>, name: Seq<char>) -> Option<Seq<char>>
    decreases tags.len(),
{
    if tags.len() == 0 {
        None
    } else if tags[0].len() >= 2 && tags[0][0] == name {
        Some(tags[0][1])
    } else {
        tag_value(tags.drop_first(), name)
    }
}

/// Convert an MCP message to a Nostr event template (unsigned).
///
/// The message is written as JSON into the event's `content` field.
pub fn mcp_to_nostr_event(message: &JsonRpcMessage, kind: u16, tags: Vec<Tag>) -> (template:
    EventTemplate)
    ensures
        template@ == (TemplateView { kind, content: message_text(message@), tags: tags_view(tags@) }),
{
    EventTemplate { kind, content: write_message(message), tags }
}

/// Read the MCP message in a Nostr event's content.
///
/// Returns `None` if the content is not valid JSON or not a valid JSON-RPC
/// message; one that repeats a field of its own is none. What
/// [`mcp_to_nostr_event`] wrote is read back.
pub fn nostr_event_to_mcp_message(content: &str) -> (message: Option<JsonRpcMessage>)
    ensures
        match message {
            Some(m) => message_of_text(content@) == Some(m@),
            None => message_of_text(content@) is None,
        },
        forall|m: MessageView|
            #![trigger message_text(m)]
            message_text(m) == content@ && message_fits(m) ==> message is Some && message->0@
                == settled_message(m),
{
    let value = match parse(content) {
        Some(value) => value,
        None => {
            assert forall|m: MessageView| #[trigger] message_text(m) == content@ implies
                !message_fits(m) by {
                assert(content@ == layout_text(message_layout(m)));
            }
            return None;
        },
    };
    let members = read_members(content);
    let error_members = read_members(find_value_text(&members, "error"));
    proof {
        assert forall|m: MessageView| #[trigger]
            message_text(m) == content@ && message_fits(m) implies message_of_text(content@)
            == Some(settled_message(m)) by {
            lemma_written_members(m);
            assert(content@ == layout_text(message_layout(m)));
            law_message_members_round_trip(m, listed(error_members@));
        }
    }
    read_members_message(&value, &members, &error_members)
}

/// Extract a tag value from a slice of tags.
pub fn get_tag_value_from_slice(tags: &[Tag], name: &str) -> (value: Option<String>)
    ensures
        match value {
            Some(text) => tag_value(tags_view(tags@), name@) == Some(text@),
            None => tag_value(tags_view(tags@), name@) is None,
        },
{
    let mut i: usize = 0;
    proof {
        assert(tags_view(tags@).skip(0) =~= tags_view(tags@));
    }
    while i < tags.len()
        invariant
            i <= tags@.len(),
            tag_value(tags_view(tags@), name@) == tag_value(
                tags_view(tags@).skip(i as int),
                name@,
            ),
        decreases tags@.len() - i,
    {
        let ghost rest = tags_view(tags@).skip(i as int);
        proof {
            assert(rest[0] == tags@[i as int]@);
            assert(rest.drop_first() =~= tags_view(tags@).skip(i + 1));
        }
        if let Some(text) = tags[i].value_of(name) {
            return Some(text);
        }
        i = i + 1;
    }
    None
}

/// Extract a tag value from a Nostr event's tags.
pub fn get_tag_value(tags: &Vec<Tag>, name: &str) -> (value: Option<String>)
    ensures
        match value {
            Some(text) => tag_value(tags_view(tags@), name@) == Some(text@),
            None => tag_value(tags_view(tags@), name@) is None,
        },
{
    get_tag_value_from_slice(tags.as_slice(), name)
}

} // verus!
