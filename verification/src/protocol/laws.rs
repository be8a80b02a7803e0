//! What messages, keys and tags come to on the wire.

use crate::protocol::constants::is_unencrypted_kind;
use crate::protocol::error::Error;
use crate::protocol::json::{
    integer_of, json_parse, json_text, layout_members, layout_text, layout_value, members_text,
    Json, JsonView, Layout,
};
use crate::protocol::members::members_of;
use crate::protocol::nostr::{tags_view, EventId, EventTemplate, PublicKey, Tag};
use crate::protocol::serializers::{
    get_tag_value, get_tag_value_from_slice, mcp_to_nostr_event, nostr_event_to_mcp_message,
    tag_value,
};
use crate::protocol::types::{
    GiftWrapMode, JsonRpcError, JsonRpcErrorResponse, JsonRpcMessage, JsonRpcNotification,
    JsonRpcRequest, JsonRpcResponse, MessageView,
};
use crate::protocol::validation::{validate_and_parse, validate_message, validate_message_size};
use crate::protocol::wire::{
    error_layout, message_text, message_to_value, message_value, read_message, write_message,
};
use vstd::prelude::*;

verus! {

/// The text of one member of an object.
pub open spec fn member_text(name: Seq<char>, value_text: Seq<char>) -> Seq<char> {
    json_text(JsonView::Str(name)) + ":"@ + value_text
}

/// The text of one more member behind others, where there is one.
pub open spec fn further_text(name: Seq<char>, value: Option<Json>) -> Seq<char> {
    match value {
        Some(given) => ","@ + member_text(name, json_text(given@)),
        None => Seq::empty(),
    }
}

/// A text as JSON.
pub open spec fn quoted(text: String) -> Seq<char> {
    json_text(JsonView::Str(text@))
}

/// The text of two members and what follows.
proof fn lemma_two_members(
    members: Seq<(Seq<char>, Layout)>,
    a: (Seq<char>, Layout),
    b: (Seq<char>, Layout),
)
    requires
        members == seq![a, b],
    ensures
        members_text(members) == member_text(a.0, layout_text(a.1)) + ","@ + member_text(
            b.0,
            layout_text(b.1),
        ),
{
    assert(members.drop_last() =~= seq![a]);
    reveal_with_fuel(members_text, 3);
}

/// The text of members and one more.
proof fn lemma_more_members(members: Seq<(Seq<char>, Layout)>, more: (Seq<char>, Layout))
    requires
        members.len() > 0,
    ensures
        members_text(members.push(more)) == members_text(members) + ","@ + member_text(
            more.0,
            layout_text(more.1),
        ),
{
    assert(members.push(more).drop_last() =~= members);
}

/// The text of a request: its version, its id, its method and its parameters,
/// where it has any.
pub open spec fn request_text(r: JsonRpcRequest) -> Seq<char> {
    "{"@ + member_text("jsonrpc"@, quoted(r.jsonrpc)) + ","@ + member_text("id"@, json_text(r.id@))
        + ","@ + member_text("method"@, quoted(r.method)) + further_text("params"@, r.params) + "}"@
}

/// The text of a response: its version, its id and its result.
pub open spec fn response_text(r: JsonRpcResponse) -> Seq<char> {
    "{"@ + member_text("jsonrpc"@, quoted(r.jsonrpc)) + ","@ + member_text("id"@, json_text(r.id@))
        + ","@ + member_text("result"@, json_text(r.result@)) + "}"@
}

/// The text of an error: its code, its message and its data, where it has any.
pub open spec fn error_text(e: JsonRpcError) -> Seq<char> {
    "{"@ + member_text("code"@, json_text(integer(e.code))) + ","@ + member_text(
        "message"@,
        quoted(e.message),
    ) + further_text("data"@, e.data) + "}"@
}

/// The text of an error response: its version, its id and its error.
pub open spec fn error_response_text(r: JsonRpcErrorResponse) -> Seq<char> {
    "{"@ + member_text("jsonrpc"@, quoted(r.jsonrpc)) + ","@ + member_text("id"@, json_text(r.id@))
        + ","@ + member_text("error"@, error_text(r.error)) + "}"@
}

/// The text of a notification: its version, its method and its parameters, where
/// it has any.
pub open spec fn notification_text(n: JsonRpcNotification) -> Seq<char> {
    "{"@ + member_text("jsonrpc"@, quoted(n.jsonrpc)) + ","@ + member_text(
        "method"@,
        quoted(n.method),
    ) + further_text("params"@, n.params) + "}"@
}

proof fn lemma_request_text(r: JsonRpcRequest)
    ensures
        message_text(MessageView::Request(r@)) == request_text(r),
{
    let a = ("jsonrpc"@, Layout::Leaf(JsonView::Str(r.jsonrpc@)));
    let b = ("id"@, Layout::Leaf(r.id@));
    let c = ("method"@, Layout::Leaf(JsonView::Str(r.method@)));
    lemma_two_members(seq![a, b], a, b);
    lemma_more_members(seq![a, b], c);
    assert(seq![a, b].push(c) =~= seq![a, b, c]);
    if let Some(p) = r.params {
        lemma_more_members(seq![a, b, c], ("params"@, Layout::Leaf(p@)));
    }
    assert(message_text(MessageView::Request(r@)) =~= request_text(r));
}

proof fn lemma_response_text(r: JsonRpcResponse)
    ensures
        message_text(MessageView::Response(r@)) == response_text(r),
{
    let a = ("jsonrpc"@, Layout::Leaf(JsonView::Str(r.jsonrpc@)));
    let b = ("id"@, Layout::Leaf(r.id@));
    let c = ("result"@, Layout::Leaf(r.result@));
    lemma_two_members(seq![a, b], a, b);
    lemma_more_members(seq![a, b], c);
    assert(seq![a, b].push(c) =~= seq![a, b, c]);
    assert(message_text(MessageView::Response(r@)) =~= response_text(r));
}

proof fn lemma_error_text(e: JsonRpcError)
    ensures
        layout_text(error_layout(e@)) == error_text(e),
{
    let code = ("code"@, Layout::Leaf(integer(e.code)));
    let reason = ("message"@, Layout::Leaf(JsonView::Str(e.message@)));
    lemma_two_members(seq![code, reason], code, reason);
    if let Some(d) = e.data {
        lemma_more_members(seq![code, reason], ("data"@, Layout::Leaf(d@)));
    }
    assert(layout_text(error_layout(e@)) =~= error_text(e));
}

proof fn lemma_error_response_text(r: JsonRpcErrorResponse)
    ensures
        message_text(MessageView::ErrorResponse(r@)) == error_response_text(r),
{
    let a = ("jsonrpc"@, Layout::Leaf(JsonView::Str(r.jsonrpc@)));
    let b = ("id"@, Layout::Leaf(r.id@));
    let c = ("error"@, error_layout(r.error@));
    lemma_error_text(r.error);
    lemma_two_members(seq![a, b], a, b);
    lemma_more_members(seq![a, b], c);
    assert(seq![a, b].push(c) =~= seq![a, b, c]);
    assert(message_text(MessageView::ErrorResponse(r@)) =~= error_response_text(r));
}

proof fn lemma_notification_text(n: JsonRpcNotification)
    ensures
        message_text(MessageView::Notification(n@)) == notification_text(n),
{
    let a = ("jsonrpc"@, Layout::Leaf(JsonView::Str(n.jsonrpc@)));
    let b = ("method"@, Layout::Leaf(JsonView::Str(n.method@)));
    lemma_two_members(seq![a, b], a, b);
    if let Some(p) = n.params {
        lemma_more_members(seq![a, b], ("params"@, Layout::Leaf(p@)));
    }
    assert(message_text(MessageView::Notification(n@)) =~= notification_text(n));
}

/// The text that a message has on the wire: an object with its fields, each under
/// its own name, in a fixed order; parameters and data that are left out are left
/// out of the text.
pub open spec fn text_on_wire(message: JsonRpcMessage) -> Seq<char> {
    match message {
        JsonRpcMessage::Request(r) => request_text(r),
        JsonRpcMessage::Response(r) => response_text(r),
        JsonRpcMessage::ErrorResponse(r) => error_response_text(r),
        JsonRpcMessage::Notification(n) => notification_text(n),
    }
}

/// A message is written with all its fields, each under its own name.
pub proof fn law_message_written(message: &JsonRpcMessage, text: String)
    requires
        call_ensures(write_message, (message,), text),
    ensures
        text@ == text_on_wire(*message),
{
    lemma_text_on_wire(*message);
}

/// The text that is stated of a message is the one that it has on the wire.
pub(crate) proof fn lemma_text_on_wire(message: JsonRpcMessage)
    ensures
        message_text(message@) == text_on_wire(message),
{
    match message {
        JsonRpcMessage::Request(r) => lemma_request_text(r),
        JsonRpcMessage::Response(r) => lemma_response_text(r),
        JsonRpcMessage::ErrorResponse(r) => lemma_error_response_text(r),
        JsonRpcMessage::Notification(n) => lemma_notification_text(n),
    }
}

/// An integer as a value.
pub open spec fn integer(number: i64) -> JsonView {
    if number < 0 {
        JsonView::Number(crate::protocol::json::NumberView::Negative(number))
    } else {
        JsonView::Number(crate::protocol::json::NumberView::Unsigned(number as u64))
    }
}

/// Whether a member is there, with that value.
pub open spec fn has(members: Map<Seq<char>, JsonView>, name: Seq<char>, value: JsonView) -> bool {
    members.contains_key(name) && members[name] == value
}

/// Whether a member is there exactly where a value is given, and has it.
pub open spec fn has_given(
    members: Map<Seq<char>, JsonView>,
    name: Seq<char>,
    value: Option<Json>,
) -> bool {
    match value {
        Some(given) => has(members, name, given@),
        None => !members.contains_key(name),
    }
}

/// The names of the fields of messages are different.
proof fn lemma_names_differ()
    ensures
        "jsonrpc"@ != "id"@,
        "jsonrpc"@ != "method"@,
        "jsonrpc"@ != "params"@,
        "jsonrpc"@ != "result"@,
        "jsonrpc"@ != "error"@,
        "id"@ != "method"@,
        "id"@ != "params"@,
        "id"@ != "result"@,
        "id"@ != "error"@,
        "method"@ != "params"@,
        "method"@ != "result"@,
        "method"@ != "error"@,
        "params"@ != "result"@,
        "params"@ != "error"@,
        "result"@ != "error"@,
        "code"@ != "message"@,
        "code"@ != "data"@,
        "message"@ != "data"@,
{
    reveal_strlit("jsonrpc");
    reveal_strlit("id");
    reveal_strlit("method");
    reveal_strlit("params");
    reveal_strlit("result");
    reveal_strlit("error");
    reveal_strlit("code");
    reveal_strlit("message");
    reveal_strlit("data");
    assert("jsonrpc"@.len() == 7 && "id"@.len() == 2 && "error"@.len() == 5);
    assert("method"@.len() == 6 && "params"@.len() == 6 && "result"@.len() == 6);
    assert("method"@[0] == 'm' && "params"@[0] == 'p' && "result"@[0] == 'r');
    assert("code"@.len() == 4 && "message"@.len() == 7 && "data"@.len() == 4);
    assert("code"@[0] == 'c' && "data"@[0] == 'd');
}

/// The members of two layouts, and of one more.
proof fn lemma_layout_two(a: (Seq<char>, Layout), b: (Seq<char>, Layout))
    ensures
        layout_members(seq![a, b]) == Map::<Seq<char>, JsonView>::empty().insert(
            a.0,
            layout_value(a.1),
        ).insert(b.0, layout_value(b.1)),
{
    assert(seq![a, b].drop_last() =~= seq![a]);
    assert(seq![a].drop_last() =~= Seq::empty());
    reveal_with_fuel(layout_members, 3);
}

proof fn lemma_layout_more(members: Seq<(Seq<char>, Layout)>, more: (Seq<char>, Layout))
    ensures
        layout_members(members.push(more)) == layout_members(members).insert(
            more.0,
            layout_value(more.1),
        ),
{
    assert(members.push(more).drop_last() =~= members);
}

/// Whether a value holds an error and nothing else.
pub open spec fn holds_error(value: JsonView, error: JsonRpcError) -> bool {
    &&& value matches JsonView::Object(members)
    &&& has(members, "code"@, integer(error.code))
    &&& has(members, "message"@, JsonView::Str(error.message@))
    &&& has_given(members, "data"@, error.data)
    &&& forall|name: Seq<char>| #[trigger]
        members.contains_key(name) ==> name == "code"@ || name == "message"@ || name == "data"@
}

/// Whether a value holds a message and nothing else: an object with its fields,
/// each under its own name.
pub open spec fn holds_message(value: JsonView, message: JsonRpcMessage) -> bool {
    &&& value matches JsonView::Object(members)
    &&& match message {
        JsonRpcMessage::Request(r) => {
            &&& has(members, "jsonrpc"@, JsonView::Str(r.jsonrpc@))
            &&& has(members, "id"@, r.id@)
            &&& has(members, "method"@, JsonView::Str(r.method@))
            &&& has_given(members, "params"@, r.params)
            &&& forall|name: Seq<char>| #[trigger]
                members.contains_key(name) ==> name == "jsonrpc"@ || name == "id"@ || name
                    == "method"@ || name == "params"@
        },
        JsonRpcMessage::Response(r) => {
            &&& has(members, "jsonrpc"@, JsonView::Str(r.jsonrpc@))
            &&& has(members, "id"@, r.id@)
            &&& has(members, "result"@, r.result@)
            &&& forall|name: Seq<char>| #[trigger]
                members.contains_key(name) ==> name == "jsonrpc"@ || name == "id"@ || name
                    == "result"@
        },
        JsonRpcMessage::ErrorResponse(r) => {
            &&& has(members, "jsonrpc"@, JsonView::Str(r.jsonrpc@))
            &&& has(members, "id"@, r.id@)
            &&& members.contains_key("error"@) && holds_error(members["error"@], r.error)
            &&& forall|name: Seq<char>| #[trigger]
                members.contains_key(name) ==> name == "jsonrpc"@ || name == "id"@ || name
                    == "error"@
        },
        JsonRpcMessage::Notification(n) => {
            &&& has(members, "jsonrpc"@, JsonView::Str(n.jsonrpc@))
            &&& has(members, "method"@, JsonView::Str(n.method@))
            &&& has_given(members, "params"@, n.params)
            &&& forall|name: Seq<char>| #[trigger]
                members.contains_key(name) ==> name == "jsonrpc"@ || name == "method"@ || name
                    == "params"@
        },
    }
}

/// The value that a message is written as holds it and nothing else.
pub proof fn law_message_value(message: &JsonRpcMessage, value: Json)
    requires
        call_ensures(message_to_value, (message,), value),
    ensures
        holds_message(value@, *message),
{
    lemma_message_value(*message);
}

/// The value that is stated of a message holds it and nothing else.
pub(crate) proof fn lemma_message_value(message: JsonRpcMessage)
    ensures
        holds_message(message_value(message@), message),
{
    lemma_names_differ();
    match message {
        JsonRpcMessage::Request(r) => {
            let a = ("jsonrpc"@, Layout::Leaf(JsonView::Str(r.jsonrpc@)));
            let b = ("id"@, Layout::Leaf(r.id@));
            let c = ("method"@, Layout::Leaf(JsonView::Str(r.method@)));
            lemma_layout_two(a, b);
            lemma_layout_more(seq![a, b], c);
            assert(seq![a, b].push(c) =~= seq![a, b, c]);
            if let Some(p) = r.params {
                lemma_layout_more(seq![a, b, c], ("params"@, Layout::Leaf(p@)));
            }
        },
        JsonRpcMessage::Response(r) => {
            let a = ("jsonrpc"@, Layout::Leaf(JsonView::Str(r.jsonrpc@)));
            let b = ("id"@, Layout::Leaf(r.id@));
            let c = ("result"@, Layout::Leaf(r.result@));
            lemma_layout_two(a, b);
            lemma_layout_more(seq![a, b], c);
            assert(seq![a, b].push(c) =~= seq![a, b, c]);
        },
        JsonRpcMessage::ErrorResponse(r) => {
            lemma_error_value(r.error);
            let a = ("jsonrpc"@, Layout::Leaf(JsonView::Str(r.jsonrpc@)));
            let b = ("id"@, Layout::Leaf(r.id@));
            let c = ("error"@, error_layout(r.error@));
            lemma_layout_two(a, b);
            lemma_layout_more(seq![a, b], c);
            assert(seq![a, b].push(c) =~= seq![a, b, c]);
        },
        JsonRpcMessage::Notification(n) => {
            let a = ("jsonrpc"@, Layout::Leaf(JsonView::Str(n.jsonrpc@)));
            let b = ("method"@, Layout::Leaf(JsonView::Str(n.method@)));
            lemma_layout_two(a, b);
            if let Some(p) = n.params {
                lemma_layout_more(seq![a, b], ("params"@, Layout::Leaf(p@)));
            }
        },
    }
}

proof fn lemma_error_value(error: JsonRpcError)
    ensures
        holds_error(layout_value(error_layout(error@)), error),
{
    lemma_names_differ();
    let code = ("code"@, Layout::Leaf(integer(error.code)));
    let reason = ("message"@, Layout::Leaf(JsonView::Str(error.message@)));
    lemma_layout_two(code, reason);
    if let Some(d) = error.data {
        lemma_layout_more(seq![code, reason], ("data"@, Layout::Leaf(d@)));
    }
}

/// The value of an optional field: nothing where it is left out or null.
pub open spec fn is_field(
    found: Option<Json>,
    members: Map<Seq<char>, JsonView>,
    name: Seq<char>,
) -> bool {
    match found {
        Some(value) => has(members, name, value@) && value@ != JsonView::Null,
        None => !members.contains_key(name) || members[name] == JsonView::Null,
    }
}

/// Whether a member is there and a text.
pub open spec fn has_text(members: Map<Seq<char>, JsonView>, name: Seq<char>) -> bool {
    members.contains_key(name) && members[name] is Str
}

/// Whether a value is an error: an object with a code that is a 64-bit integer
/// and a message that is a text.
pub open spec fn is_error_object(value: JsonView) -> bool {
    &&& value matches JsonView::Object(members)
    &&& members.contains_key("code"@) && integer_of(members["code"@]) is Some
    &&& has_text(members, "message"@)
}

/// An object is read as a message by the fields that it has: with an id and a
/// method it is a request; otherwise with an id and a result a response; otherwise
/// with an id and an error an error response; otherwise with a method a
/// notification; and with none of these no message. Each field is taken from the
/// member of its name.
pub proof fn law_message_read(
    value: &Json,
    members: Map<Seq<char>, JsonView>,
    message: Option<JsonRpcMessage>,
)
    requires
        call_ensures(read_message, (value,), message),
        value@ == JsonView::Object(members),
        members.contains_key("error"@) ==> members["error"@] !is Array,
    ensures
        ({
            let versioned = has_text(members, "jsonrpc"@);
            let identified = versioned && members.contains_key("id"@);
            let is_request = identified && has_text(members, "method"@);
            let is_response = identified && members.contains_key("result"@);
            let is_error = identified && members.contains_key("error"@) && is_error_object(
                members["error"@],
            );
            let is_notification = versioned && has_text(members, "method"@);
            match message {
                Some(JsonRpcMessage::Request(r)) => {
                    &&& is_request
                    &&& members["jsonrpc"@] == JsonView::Str(r.jsonrpc@)
                    &&& members["id"@] == r.id@
                    &&& members["method"@] == JsonView::Str(r.method@)
                    &&& is_field(r.params, members, "params"@)
                },
                Some(JsonRpcMessage::Response(r)) => {
                    &&& is_response && !is_request
                    &&& members["jsonrpc"@] == JsonView::Str(r.jsonrpc@)
                    &&& members["id"@] == r.id@
                    &&& members["result"@] == r.result@
                },
                Some(JsonRpcMessage::ErrorResponse(r)) => {
                    &&& is_error && !is_request && !is_response
                    &&& members["jsonrpc"@] == JsonView::Str(r.jsonrpc@)
                    &&& members["id"@] == r.id@
                    &&& members["error"@] matches JsonView::Object(error)
                    &&& integer_of(error["code"@]) == Some(r.error.code)
                    &&& error["message"@] == JsonView::Str(r.error.message@)
                    &&& is_field(r.error.data, error, "data"@)
                },
                Some(JsonRpcMessage::Notification(n)) => {
                    &&& is_notification && !is_request && !is_response && !is_error
                    &&& members["jsonrpc"@] == JsonView::Str(n.jsonrpc@)
                    &&& members["method"@] == JsonView::Str(n.method@)
                    &&& is_field(n.params, members, "params"@)
                },
                None => !is_request && !is_response && !is_error && !is_notification,
            }
        }),
{
    if let Some(m) = message {
        match m {
            JsonRpcMessage::Request(r) => {
                assert(m@ == MessageView::Request(r@));
            },
            JsonRpcMessage::Response(r) => {
                assert(m@ == MessageView::Response(r@));
            },
            JsonRpcMessage::ErrorResponse(r) => {
                assert(m@ == MessageView::ErrorResponse(r@));
            },
            JsonRpcMessage::Notification(n) => {
                assert(m@ == MessageView::Notification(n@));
            },
        }
    }
}

/// A value is a valid message exactly where it is an object that names the
/// version 2.0 and it can be read; it is then what it is read as.
pub proof fn law_valid_message(
    value: &Json,
    valid: Option<JsonRpcMessage>,
    read: Option<JsonRpcMessage>,
)
    requires
        call_ensures(validate_message, (value,), valid),
        call_ensures(read_message, (value,), read),
    ensures
        ({
            let named = value@ matches JsonView::Object(members) && has(
                members,
                "jsonrpc"@,
                JsonView::Str("2.0"@),
            );
            &&& valid is Some <==> named && read is Some
            &&& valid matches Some(message) ==> message@ == read->0@
        }),
{
}

/// A content is a message exactly where it is at most a megabyte long, JSON, and
/// a valid message; it is then that message.
pub proof fn law_content_validated(
    content: &str,
    allowed: bool,
    parsed: Option<Json>,
    valid: Option<JsonRpcMessage>,
    message: Option<JsonRpcMessage>,
)
    requires
        call_ensures(validate_message_size, (content,), allowed),
        call_ensures(Json::from_text, (content,), parsed),
        parsed matches Some(value) ==> call_ensures(validate_message, (&value,), valid),
        call_ensures(validate_and_parse, (content,), message),
    ensures
        allowed <==> vstd::utf8::encode_utf8(content@).len() <= 1048576,
        message is Some <==> allowed && parsed is Some && valid is Some,
        message matches Some(m) ==> m@ == valid->0@,
{
}

/// An event carries the text of its message, under the kind and with the tags
/// that are given.
pub proof fn law_message_in_event(
    message: &JsonRpcMessage,
    kind: u16,
    tags: Vec<Tag>,
    template: EventTemplate,
)
    requires
        call_ensures(mcp_to_nostr_event, (message, kind, tags), template),
    ensures
        template.kind == kind,
        template.content@ == text_on_wire(*message),
        tags_view(template.tags@) == tags_view(tags@),
{
    lemma_text_on_wire(*message);
}

/// Whether a value that may be left out is the same, null counting as left out.
pub open spec fn is_same_field(before: Option<Json>, after: Option<Json>) -> bool {
    match after {
        Some(value) => before matches Some(given) && given@ == value@ && given@ != JsonView::Null,
        None => before matches Some(given) ==> given@ == JsonView::Null,
    }
}

/// What is written of a message is read back from the content of an event as the
/// same kind of message, with the same fields.
pub proof fn law_written_content_read_back(
    message: JsonRpcMessage,
    content: &str,
    read: Option<JsonRpcMessage>,
)
    requires
        content@ == text_on_wire(message),
        crate::protocol::wire::message_fits(message@),
        call_ensures(nostr_event_to_mcp_message, (content,), read),
    ensures
        match message {
            JsonRpcMessage::Request(r) => read matches Some(JsonRpcMessage::Request(b)) && b.jsonrpc@
                == r.jsonrpc@ && b.id@ == r.id@ && b.method@ == r.method@ && is_same_field(
                r.params,
                b.params,
            ),
            JsonRpcMessage::Response(r) => read matches Some(JsonRpcMessage::Response(b))
                && b.jsonrpc@ == r.jsonrpc@ && b.id@ == r.id@ && b.result@ == r.result@,
            JsonRpcMessage::ErrorResponse(r) => read matches Some(JsonRpcMessage::ErrorResponse(b))
                && b.jsonrpc@ == r.jsonrpc@ && b.id@ == r.id@ && b.error.code == r.error.code
                && b.error.message@ == r.error.message@ && is_same_field(r.error.data, b.error.data),
            JsonRpcMessage::Notification(n) => read matches Some(JsonRpcMessage::Notification(b))
                && b.jsonrpc@ == n.jsonrpc@ && b.method@ == n.method@ && is_same_field(
                n.params,
                b.params,
            ),
        },
{
    lemma_text_on_wire(message);
    assert(message_text(message@) == content@);
    let back = read->0;
    match message {
        JsonRpcMessage::Request(r) => {
            assert(message@ == MessageView::Request(r@));
            assert(back@ is Request);
        },
        JsonRpcMessage::Response(r) => {
            assert(message@ == MessageView::Response(r@));
            assert(back@ is Response);
        },
        JsonRpcMessage::ErrorResponse(r) => {
            assert(message@ == MessageView::ErrorResponse(r@));
            assert(back@ is ErrorResponse);
        },
        JsonRpcMessage::Notification(n) => {
            assert(message@ == MessageView::Notification(n@));
            assert(back@ is Notification);
        },
    }
}

/// No content that is not JSON is a message, and none in which the version is
/// repeated; a notification that is read names its method once.
pub proof fn law_unreadable_content(content: &str, read: Option<JsonRpcMessage>, i: int, j: int)
    requires
        call_ensures(nostr_event_to_mcp_message, (content,), read),
        0 <= i < j < members_of(content@).len(),
    ensures
        json_parse(content@) is None ==> read is None,
        ({
            let members = members_of(content@);
            &&& members[i].0 == "jsonrpc"@ && members[j].0 == "jsonrpc"@ ==> read is None
            &&& members[i].0 == "method"@ && members[j].0 == "method"@ ==> !(read matches Some(
                JsonRpcMessage::Notification(_),
            )) && !(read matches Some(JsonRpcMessage::Request(_)))
        }),
{
    let members = members_of(content@);
    if members[i].0 == members[j].0 {
        assert(crate::protocol::members::repeats(members, members[i].0));
        let a = seq!["jsonrpc"@, "id"@, "method"@, "params"@];
        let b = seq!["jsonrpc"@, "id"@, "result"@];
        let c = seq!["jsonrpc"@, "id"@, "error"@];
        let d = seq!["jsonrpc"@, "method"@, "params"@];
        assert(a[0] == "jsonrpc"@ && b[0] == "jsonrpc"@ && c[0] == "jsonrpc"@ && d[0]
            == "jsonrpc"@);
        assert(a[2] == "method"@ && d[1] == "method"@);
    }
    if let Some(message) = read {
        match message {
            JsonRpcMessage::Request(r) => {
                assert(message@ == MessageView::Request(r@));
            },
            JsonRpcMessage::Notification(n) => {
                assert(message@ == MessageView::Notification(n@));
            },
            _ => {},
        }
    }
}

/// Whether a tag bears a name and has a value.
pub open spec fn has_value(tag: Seq<Seq<char>>, name: Seq<char>) -> bool {
    tag.len() >= 2 && tag[0] == name
}

/// The value that is found is that of the first tag that has one.
pub(crate) proof fn lemma_first_value(tags: Seq<Seq<Seq<char>>>, name: Seq<char>)
    ensures
        match tag_value(tags, name) {
            Some(value) => exists|i: int|
                {
                    &&& 0 <= i < tags.len()
                    &&& has_value(#[trigger] tags[i], name)
                    &&& tags[i][1] == value
                    &&& forall|j: int| 0 <= j < i ==> !has_value(#[trigger] tags[j], name)
                },
            None => forall|i: int| 0 <= i < tags.len() ==> !has_value(#[trigger] tags[i], name),
        },
    decreases tags.len(),
{
    if tags.len() > 0 {
        if has_value(tags[0], name) {
            assert(tags[0][1] == tag_value(tags, name)->0);
        } else {
            let rest = tags.drop_first();
            lemma_first_value(rest, name);
            match tag_value(rest, name) {
                Some(value) => {
                    let k = choose|k: int|
                        {
                            &&& 0 <= k < rest.len()
                            &&& has_value(#[trigger] rest[k], name)
                            &&& rest[k][1] == value
                            &&& forall|j: int| 0 <= j < k ==> !has_value(#[trigger] rest[j], name)
                        };
                    assert(tags[k + 1] == rest[k]);
                    assert forall|j: int| 0 <= j < k + 1 implies !has_value(
                        #[trigger] tags[j],
                        name,
                    ) by {
                        if j > 0 {
                            assert(rest[j - 1] == tags[j]);
                        }
                    }
                },
                None => {
                    assert forall|i: int| 0 <= i < tags.len() implies !has_value(
                        #[trigger] tags[i],
                        name,
                    ) by {
                        if i > 0 {
                            assert(rest[i - 1] == tags[i]);
                        }
                    }
                },
            }
        }
    }
}

/// The value of a tag is that of the first tag of its name that has one.
pub proof fn law_tag_value(tags: &Vec<Tag>, name: &str, value: Option<String>)
    requires
        call_ensures(get_tag_value, (tags, name), value),
    ensures
        match value {
            Some(text) => exists|i: int|
                {
                    &&& 0 <= i < tags@.len()
                    &&& has_value((#[trigger] tags@[i])@, name@)
                    &&& tags@[i]@[1] == text@
                    &&& forall|j: int| 0 <= j < i ==> !has_value((#[trigger] tags@[j])@, name@)
                },
            None => forall|i: int|
                0 <= i < tags@.len() ==> !has_value((#[trigger] tags@[i])@, name@),
        },
{
    let all = tags_view(tags@);
    lemma_first_value(all, name@);
    match value {
        Some(text) => {
            let k = choose|k: int|
                {
                    &&& 0 <= k < all.len()
                    &&& has_value(#[trigger] all[k], name@)
                    &&& all[k][1] == text@
                    &&& forall|j: int| 0 <= j < k ==> !has_value(#[trigger] all[j], name@)
                };
            assert(all[k] == tags@[k]@);
            assert forall|j: int| 0 <= j < k implies !has_value((#[trigger] tags@[j])@, name@) by {
                assert(all[j] == tags@[j]@);
            }
        },
        None => {
            assert forall|i: int| 0 <= i < tags@.len() implies !has_value(
                (#[trigger] tags@[i])@,
                name@,
            ) by {
                assert(all[i] == tags@[i]@);
            }
        },
    }
}

/// The same value is found in a slice of the tags.
pub proof fn law_tag_value_of_slice(
    tags: &Vec<Tag>,
    slice: &[Tag],
    name: &str,
    value: Option<String>,
    of_slice: Option<String>,
)
    requires
        slice@ == tags@,
        call_ensures(get_tag_value, (tags, name), value),
        call_ensures(get_tag_value_from_slice, (slice, name), of_slice),
    ensures
        value is Some <==> of_slice is Some,
        value matches Some(text) ==> of_slice->0@ == text@,
{
}

/// Whether a text is made of 64 hexadecimal digits.
pub open spec fn is_hex(text: Seq<char>) -> bool {
    text.len() == 64 && forall|i: int|
        0 <= i < text.len() ==> ('0' <= #[trigger] text[i] <= '9' || 'a' <= text[i] <= 'f' || 'A'
            <= text[i] <= 'F')
}

/// Whether a digit is the other in lower case.
pub open spec fn is_lowered(digit: char, lower: char) -> bool {
    if 'A' <= digit <= 'F' {
        lower as int == digit as int + 32
    } else {
        lower == digit
    }
}

/// Keys and event ids are read from exactly 64 hexadecimal digits, and stand for
/// these digits in lower case.
pub proof fn law_keys_and_ids_read(
    text: &str,
    key: Result<PublicKey, Error>,
    id: Result<EventId, Error>,
)
    requires
        call_ensures(PublicKey::from_hex, (text,), key),
        call_ensures(EventId::from_hex, (text,), id),
    ensures
        key is Ok <==> is_hex(text@),
        id is Ok <==> is_hex(text@),
        key matches Ok(k) ==> k@.len() == 64 && forall|i: int|
            0 <= i < 64 ==> is_lowered(#[trigger] text@[i], k@[i]),
        id matches Ok(k) ==> k@.len() == 64 && forall|i: int|
            0 <= i < 64 ==> is_lowered(#[trigger] text@[i], k@[i]),
{
    assert(forall|i: int|
        0 <= i < text@.len() ==> crate::protocol::nostr::is_hex_digit(#[trigger] text@[i]) == (
        '0' <= text@[i] <= '9' || 'a' <= text@[i] <= 'f' || 'A' <= text@[i] <= 'F'));
}

/// The tag that addresses a key is named `p`, the tag that refers to an event
/// `e`; each has its key or id as its value.
pub proof fn law_addressing_tags(key: &PublicKey, id: &EventId, address: Tag, reference: Tag)
    requires
        call_ensures(Tag::public_key, (key,), address),
        call_ensures(Tag::event, (id,), reference),
    ensures
        address@ == seq!["p"@, key@],
        reference@ == seq!["e"@, id@],
{
}

/// Giving an answer an id changes the id and nothing else; other messages stay
/// as they are.
pub proof fn law_answer_given_id(message: JsonRpcMessage, id: &Json, given: JsonRpcMessage)
    requires
        call_ensures(JsonRpcMessage::with_id, (message, id), given),
    ensures
        match message {
            JsonRpcMessage::Response(r) => given matches JsonRpcMessage::Response(g) && g.jsonrpc@
                == r.jsonrpc@ && g.id@ == id@ && g.result@ == r.result@,
            JsonRpcMessage::ErrorResponse(r) => given matches JsonRpcMessage::ErrorResponse(g)
                && g.jsonrpc@ == r.jsonrpc@ && g.id@ == id@ && g.error@ == r.error@,
            _ => given@ == message@,
        },
{
    match message {
        JsonRpcMessage::Response(r) => {
            assert(given@ is Response);
        },
        JsonRpcMessage::ErrorResponse(r) => {
            assert(given@ is ErrorResponse);
        },
        _ => {},
    }
}

/// Gift wraps of kind 1059 are accepted unless only ephemeral ones are, those of
/// kind 21059 unless only persistent ones are, and no other event is one.
pub proof fn law_accepted_wraps(mode: GiftWrapMode, kind: u16, allowed: bool, ephemeral: bool)
    requires
        call_ensures(GiftWrapMode::allows_kind, (mode, kind), allowed),
        call_ensures(GiftWrapMode::supports_ephemeral, (mode,), ephemeral),
    ensures
        allowed <==> (kind == 1059 && mode != GiftWrapMode::Ephemeral) || (kind == 21059 && mode
            != GiftWrapMode::Persistent),
        ephemeral <==> mode != GiftWrapMode::Persistent,
{
}

/// The kinds that are never encrypted are the five of the announcements.
pub proof fn law_unencrypted_kinds(kind: u16, unencrypted: bool)
    requires
        call_ensures(is_unencrypted_kind, (kind,), unencrypted),
    ensures
        unencrypted <==> 11316 <= kind <= 11320,
{
}

/// The member of an object that is found is the one of that name.
pub proof fn law_member_found(
    value: &Json,
    members: Map<Seq<char>, JsonView>,
    name: &str,
    found: Option<&Json>,
)
    requires
        value@ == JsonView::Object(members),
        call_ensures(Json::get, (value, name), found),
    ensures
        found is Some <==> members.contains_key(name@),
        found matches Some(member) ==> member@ == members[name@],
{
}

/// Whether a text is made of 64 hexadecimal digits in lower case, as keys and
/// event ids are written.
pub open spec fn is_written_id(text: Seq<char>) -> bool {
    text.len() == 64 && forall|i: int|
        0 <= i < text.len() ==> ('0' <= #[trigger] text[i] <= '9' || 'a' <= text[i] <= 'f')
}

/// Whether a text is read as a key or an event id: it has 64 hexadecimal digits,
/// and the key or id is these digits in lower case.
pub open spec fn reads_as(text: Seq<char>, id: Seq<char>) -> bool {
    &&& is_hex(text)
    &&& id.len() == 64
    &&& forall|i: int| 0 <= i < 64 ==> is_lowered(#[trigger] text[i], id[i])
}

/// What is stated of a text that holds a key or an id is what it is read as.
pub(crate) proof fn lemma_reads_as(text: Seq<char>, id: Seq<char>)
    ensures
        reads_as(text, id) <==> crate::protocol::nostr::hex_id(text) == Some(id),
        is_hex(text) <==> crate::protocol::nostr::hex_id(text) is Some,
{
    assert(forall|i: int|
        0 <= i < text.len() ==> crate::protocol::nostr::is_hex_digit(#[trigger] text[i]) == ('0'
            <= text[i] <= '9' || 'a' <= text[i] <= 'f' || 'A' <= text[i] <= 'F'));
    if is_hex(text) {
        let read = crate::protocol::nostr::hex_id(text)->0;
        assert(forall|i: int|
            0 <= i < 64 ==> #[trigger] read[i] == crate::protocol::nostr::lower_digit(text[i]));
        if reads_as(text, id) {
            assert forall|i: int| 0 <= i < 64 implies read[i] == id[i] by {
                assert(is_lowered(text[i], id[i]));
            }
            assert(read =~= id);
        }
    }
}

/// A key or id as it is written is read as itself and as nothing else.
pub proof fn law_written_id_is_itself(text: Seq<char>, id: Seq<char>)
    requires
        is_written_id(text),
    ensures
        reads_as(text, id) <==> id == text,
{
    if reads_as(text, id) {
        assert forall|i: int| 0 <= i < 64 implies text[i] == id[i] by {
            assert(is_lowered(text[i], id[i]));
        }
        assert(id =~= text);
    }
}

/// Whether a message is an answer with another id: the same answer in all else.
/// What is no answer is the same.
pub open spec fn is_answer_with_id(
    answer: JsonRpcMessage,
    given: JsonRpcMessage,
    id: JsonView,
) -> bool {
    match given {
        JsonRpcMessage::Response(g) => answer matches JsonRpcMessage::Response(a) && a.jsonrpc@
            == g.jsonrpc@ && a.result@ == g.result@ && a.id@ == id,
        JsonRpcMessage::ErrorResponse(g) => answer matches JsonRpcMessage::ErrorResponse(a)
            && a.jsonrpc@ == g.jsonrpc@ && a.error@ == g.error@ && a.id@ == id,
        _ => answer@ == given@,
    }
}

/// What is stated of an answer with another id is the same.
pub(crate) proof fn lemma_answer_with_id(
    answer: JsonRpcMessage,
    given: JsonRpcMessage,
    id: JsonView,
)
    requires
        is_answer_with_id(answer, given, id),
    ensures
        given@.answering(id) == answer@,
{
    match given {
        JsonRpcMessage::Response(g) => {
            assert(given@ == MessageView::Response(g@));
        },
        JsonRpcMessage::ErrorResponse(g) => {
            assert(given@ == MessageView::ErrorResponse(g@));
        },
        _ => {},
    }
}

/// Whether a message is the refusal of a request: an error response with its id,
/// the code -32000 and the message `Unauthorized`.
pub open spec fn is_refusal_of(answer: JsonRpcMessage, request_id: JsonView) -> bool {
    &&& answer matches JsonRpcMessage::ErrorResponse(a)
    &&& a.jsonrpc@ == "2.0"@
    &&& a.id@ == request_id
    &&& a.error.code == -32000
    &&& a.error.message@ == "Unauthorized"@
    &&& a.error.data is None
}

} // verus!
