//! What messages, values, keys and tags answer when they are asked.

use crate::protocol::constants::mcp_protocol_version;
use crate::protocol::error::Error;
use crate::protocol::json::{json_text, Json, JsonNumber};
use crate::protocol::laws::{integer, is_hex, is_lowered};
use crate::protocol::nostr::{
    event_of_text, read_verified_event, text_verifies, Event, EventId, PublicKey, Tag,
};
use crate::protocol::types::JsonRpcMessage;
use crate::protocol::wire::integer_value;
use vstd::prelude::*;

verus! {

/// A message is exactly one of a request, a response, an error response and a
/// notification. Requests and notifications have a method, all but notifications
/// have an id.
pub proof fn law_message_asked(
    message: &JsonRpcMessage,
    request: bool,
    response: bool,
    error: bool,
    notification: bool,
    method: Option<&str>,
    id: Option<&Json>,
)
    requires
        call_ensures(JsonRpcMessage::is_request, (message,), request),
        call_ensures(JsonRpcMessage::is_response, (message,), response),
        call_ensures(JsonRpcMessage::is_error, (message,), error),
        call_ensures(JsonRpcMessage::is_notification, (message,), notification),
        call_ensures(JsonRpcMessage::method, (message,), method),
        call_ensures(JsonRpcMessage::id, (message,), id),
    ensures
        match *message {
            JsonRpcMessage::Request(r) => {
                &&& request && !response && !error && !notification
                &&& method matches Some(text) && text@ == r.method@
                &&& id matches Some(value) && value@ == r.id@
            },
            JsonRpcMessage::Response(r) => {
                &&& !request && response && !error && !notification
                &&& method is None
                &&& id matches Some(value) && value@ == r.id@
            },
            JsonRpcMessage::ErrorResponse(r) => {
                &&& !request && !response && error && !notification
                &&& method is None
                &&& id matches Some(value) && value@ == r.id@
            },
            JsonRpcMessage::Notification(n) => {
                &&& !request && !response && !error && notification
                &&& method matches Some(text) && text@ == n.method@
                &&& id is None
            },
        },
{
}

/// A value gives its text exactly where it is a text, its truth exactly where it is
/// a truth value, and its number exactly where that is a signed 64-bit integer.
pub proof fn law_value_asked(
    value: &Json,
    text: Option<&str>,
    truth: Option<bool>,
    number: Option<i64>,
    written: String,
)
    requires
        call_ensures(Json::as_str, (value,), text),
        call_ensures(Json::as_bool, (value,), truth),
        call_ensures(Json::as_i64, (value,), number),
        call_ensures(Json::to_text, (value,), written),
    ensures
        match *value {
            Json::String(given) => text matches Some(t) && t@ == given@,
            _ => text is None,
        },
        match *value {
            Json::Bool(given) => truth == Some(given),
            _ => truth is None,
        },
        match *value {
            Json::Number(JsonNumber::Unsigned(n)) => if n <= 0x7fff_ffff_ffff_ffff {
                number matches Some(i) && i as int == n as int
            } else {
                number is None
            },
            Json::Number(JsonNumber::Negative(n)) => number == Some(n),
            _ => number is None,
        },
        written@ == json_text(value@),
{
}

/// An integer is a value that gives it back.
pub proof fn law_integer_given_back(number: i64, value: Json, back: Option<i64>)
    requires
        call_ensures(integer_value, (number,), value),
        call_ensures(Json::as_i64, (&value,), back),
    ensures
        value@ == integer(number),
        back == Some(number),
{
}

/// The reason of an error is the text that it was made with.
pub proof fn law_error_reason(error: &Error, text: &str)
    requires
        call_ensures(Error::reason, (error,), text),
    ensures
        match *error {
            Error::Transport(given) => text@ == given@,
            Error::Encryption(given) => text@ == given@,
            Error::Decryption(given) => text@ == given@,
            Error::Validation(given) => text@ == given@,
            Error::Other(given) => text@ == given@,
        },
{
}

/// A key that is written out is read back as the same key, which is itself; a key
/// in capitals is the same key.
pub proof fn law_key_read_back(
    text: &str,
    read: Result<PublicKey, Error>,
    written: String,
    again: &str,
    reread: Result<PublicKey, Error>,
    same: bool,
)
    requires
        call_ensures(PublicKey::from_hex, (text,), read),
        read matches Ok(key) ==> call_ensures(PublicKey::to_hex, (&key,), written),
        again@ == written@,
        call_ensures(PublicKey::from_hex, (again,), reread),
        read matches Ok(key) ==> (reread matches Ok(other) ==> call_ensures(
            PublicKey::same,
            (&key, &other),
            same,
        )),
    ensures
        read is Ok <==> is_hex(text@),
        read is Ok ==> {
            &&& written@.len() == 64
            &&& forall|i: int| 0 <= i < 64 ==> is_lowered(#[trigger] text@[i], written@[i])
            &&& reread is Ok && same
        },
{
    assert(forall|i: int|
        0 <= i < text@.len() ==> crate::protocol::nostr::is_hex_digit(#[trigger] text@[i]) == ('0'
            <= text@[i] <= '9' || 'a' <= text@[i] <= 'f' || 'A' <= text@[i] <= 'F'));
    if read is Ok {
        crate::protocol::nostr::law_hex_id_stable(written@);
    }
}

/// The id of an event is written out in 64 hexadecimal digits in lower case, from
/// which it is read back.
pub proof fn law_event_id_read_back(
    id: &EventId,
    written: String,
    again: &str,
    reread: Result<EventId, Error>,
)
    requires
        call_ensures(EventId::to_hex, (id,), written),
        again@ == written@,
        call_ensures(EventId::from_hex, (again,), reread),
    ensures
        written@.len() == 64,
        forall|i: int|
            0 <= i < 64 ==> '0' <= #[trigger] written@[i] <= '9' || 'a' <= written@[i] <= 'f',
        reread matches Ok(same) && same@ == id@,
{
    crate::protocol::nostr::law_hex_id_stable(written@);
}

/// The value of a tag is found under its name and under no other; the tag holds
/// the two and nothing else.
pub proof fn law_tag_read_back(
    name: &str,
    value: &str,
    asked: &str,
    tag: Tag,
    found: Option<String>,
    items: Vec<String>,
)
    requires
        call_ensures(Tag::custom, (name, value), tag),
        call_ensures(Tag::value_of, (&tag, asked), found),
        call_ensures(Tag::to_vec, (&tag,), items),
    ensures
        found is Some <==> asked@ == name@,
        found matches Some(text) ==> text@ == value@,
        items@.len() == 2,
        items@[0]@ == name@,
        items@[1]@ == value@,
{
    let texts = crate::protocol::nostr::texts_view(items@);
    assert(texts.len() == 2);
    assert(texts[0] == items@[0]@ && texts[1] == items@[1]@);
}

/// A tag without a value has none under any name, and holds its name only; one
/// that is made of items holds these, in their order.
pub proof fn law_tag_items_kept(
    name: &str,
    asked: &str,
    tag: Tag,
    found: Option<String>,
    items: Vec<String>,
    given: Vec<String>,
    made: Tag,
    back: Vec<String>,
)
    requires
        call_ensures(Tag::flag, (name,), tag),
        call_ensures(Tag::value_of, (&tag, asked), found),
        call_ensures(Tag::to_vec, (&tag,), items),
        call_ensures(Tag::from_items, (given,), made),
        call_ensures(Tag::to_vec, (&made,), back),
    ensures
        found is None,
        items@.len() == 1,
        items@[0]@ == name@,
        back@.len() == given@.len(),
        forall|i: int| 0 <= i < given@.len() ==> (#[trigger] back@[i])@ == given@[i]@,
{
    let texts = crate::protocol::nostr::texts_view(items@);
    assert(texts.len() == 1);
    assert(texts[0] == items@[0]@);
    let before = crate::protocol::nostr::texts_view(given@);
    let after = crate::protocol::nostr::texts_view(back@);
    assert(after.len() == before.len());
    assert forall|i: int| 0 <= i < given@.len() implies (#[trigger] back@[i])@ == given@[i]@ by {
        assert(after[i] == back@[i]@ && before[i] == given@[i]@);
    }
}

/// An event is taken from a text exactly where the text holds one and its id and
/// signature are right.
pub proof fn law_event_verified(text: &str, event: Option<Event>)
    requires
        call_ensures(read_verified_event, (text,), event),
    ensures
        event is Some <==> event_of_text(text@) is Some && text_verifies(text@),
        event matches Some(read) ==> event_of_text(text@) == Some(read@),
{
}

/// The version that an emulated server reports.
pub proof fn law_protocol_version(version: &'static str)
    requires
        call_ensures(mcp_protocol_version, (), version),
    ensures
        version@ == "2025-03-26"@,
{
}

} // verus!
