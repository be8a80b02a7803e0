//! Messages as JSON values and as text.

use crate::protocol::json::{
    integer_of, layout_fits, layout_members, layout_text, layout_value, lemma_items_view, member,
    members_view, text_of, Json, JsonNumber, JsonView, Layout, NumberView, ObjectText, MAX_DEPTH,
};
use crate::protocol::members::{
    is_any_repeated, lemma_layout_fits_deeper, lemma_unrepeated, listed, names_view, repeats_any,
    value_text, written,
};
use crate::protocol::types::{
    optional_view, ErrorResponseView, ErrorView, JsonRpcError, JsonRpcErrorResponse,
    JsonRpcMessage, JsonRpcNotification, JsonRpcRequest, JsonRpcResponse, MessageView,
    NotificationView, RequestView, ResponseView,
};
use vstd::prelude::*;

verus! {

/// A field of a record: the member of that name of an object, or the item at
/// that place of an array.
pub open spec fn field(value: JsonView, at: int, name: Seq<char>) -> Option<JsonView> {
    match value {
        JsonView::Object(_) => member(value, name),
        JsonView::Array(items) => if 0 <= at < items.len() {
            Some(items[at])
        } else {
            None
        },
        _ => None,
    }
}

/// A field that has to be there as a string.
pub open spec fn text_field(value: JsonView, at: int, name: Seq<char>) -> Option<Seq<char>> {
    match field(value, at, name) {
        Some(found) => text_of(found),
        None => None,
    }
}

/// A field that may be left out or null.
pub open spec fn optional_field(value: JsonView, at: int, name: Seq<char>) -> Option<JsonView> {
    match field(value, at, name) {
        Some(JsonView::Null) => None,
        found => found,
    }
}

/// Whether a value can be a record of `size` fields: an object, or an array
/// without further items.
pub open spec fn is_record(value: JsonView, size: int) -> bool {
    match value {
        JsonView::Object(_) => true,
        JsonView::Array(items) => items.len() <= size,
        _ => false,
    }
}

/// The request that a value holds.
pub open spec fn request_of(value: JsonView) -> Option<RequestView> {
    match (
        text_field(value, 0, "jsonrpc"@),
        field(value, 1, "id"@),
        text_field(value, 2, "method"@),
    ) {
        (Some(jsonrpc), Some(id), Some(method)) => if is_record(value, 4) {
            Some(
                RequestView { jsonrpc, id, method, params: optional_field(value, 3, "params"@) },
            )
        } else {
            None
        },
        _ => None,
    }
}

/// The response that a value holds.
pub open spec fn response_of(value: JsonView) -> Option<ResponseView> {
    match (
        text_field(value, 0, "jsonrpc"@),
        field(value, 1, "id"@),
        field(value, 2, "result"@),
    ) {
        (Some(jsonrpc), Some(id), Some(result)) => if is_record(value, 3) {
            Some(ResponseView { jsonrpc, id, result })
        } else {
            None
        },
        _ => None,
    }
}

/// The error that a value holds.
pub open spec fn error_of(value: JsonView) -> Option<ErrorView> {
    match (field(value, 0, "code"@), text_field(value, 1, "message"@)) {
        (Some(code), Some(message)) => if is_record(value, 3) && integer_of(code) is Some {
            Some(
                ErrorView {
                    code: integer_of(code)->0,
                    message,
                    data: optional_field(value, 2, "data"@),
                },
            )
        } else {
            None
        },
        _ => None,
    }
}

/// The error response that a value holds.
pub open spec fn error_response_of(value: JsonView) -> Option<ErrorResponseView> {
    match (text_field(value, 0, "jsonrpc"@), field(value, 1, "id"@), field(value, 2, "error"@)) {
        (Some(jsonrpc), Some(id), Some(found)) => match error_of(found) {
            Some(error) => if is_record(value, 3) {
                Some(ErrorResponseView { jsonrpc, id, error })
            } else {
                None
            },
            None => None,
        },
        _ => None,
    }
}

/// The notification that a value holds.
pub open spec fn notification_of(value: JsonView) -> Option<NotificationView> {
    match (text_field(value, 0, "jsonrpc"@), text_field(value, 1, "method"@)) {
        (Some(jsonrpc), Some(method)) => if is_record(value, 3) {
            Some(
                NotificationView { jsonrpc, method, params: optional_field(value, 2, "params"@) },
            )
        } else {
            None
        },
        _ => None,
    }
}

/// The message that a value holds: the first of a request, a response, an error
/// response and a notification that it can be read as.
pub open spec fn message_of(value: JsonView) -> Option<MessageView> {
    match request_of(value) {
        Some(request) => Some(MessageView::Request(request)),
        None => match response_of(value) {
            Some(response) => Some(MessageView::Response(response)),
            None => match error_response_of(value) {
                Some(error) => Some(MessageView::ErrorResponse(error)),
                None => match notification_of(value) {
                    Some(notification) => Some(MessageView::Notification(notification)),
                    None => None,
                },
            },
        },
    }
}

/// The message that a value holds whose text gives these members, where the error
/// in it gives those: the first of a request, a response, an error response and a
/// notification that it can be read as. One that repeats a field of its own cannot
/// be read; what is no field of its own may be repeated.
pub open spec fn message_of_members(
    value: JsonView,
    members: Seq<(Seq<char>, Seq<char>)>,
    error_members: Seq<(Seq<char>, Seq<char>)>,
) -> Option<MessageView> {
    if request_of(value) is Some && !repeats_any(
        members,
        seq!["jsonrpc"@, "id"@, "method"@, "params"@],
    ) {
        Some(MessageView::Request(request_of(value)->0))
    } else if response_of(value) is Some && !repeats_any(
        members,
        seq!["jsonrpc"@, "id"@, "result"@],
    ) {
        Some(MessageView::Response(response_of(value)->0))
    } else if error_response_of(value) is Some && !repeats_any(
        members,
        seq!["jsonrpc"@, "id"@, "error"@],
    ) && !repeats_any(error_members, seq!["code"@, "message"@, "data"@]) {
        Some(MessageView::ErrorResponse(error_response_of(value)->0))
    } else if notification_of(value) is Some && !repeats_any(
        members,
        seq!["jsonrpc"@, "method"@, "params"@],
    ) {
        Some(MessageView::Notification(notification_of(value)->0))
    } else {
        None
    }
}

/// A field of a record.
fn read_field<'a>(value: &'a Json, at: usize, name: &str) -> (found: Option<&'a Json>)
    ensures
        match found {
            Some(f) => field(value@, at as int, name@) == Some(f@),
            None => field(value@, at as int, name@) is None,
        },
{
    match value {
        Json::Object(_) => value.get(name),
        Json::Array(items) => {
            proof {
                lemma_items_view(items@);
            }
            if at < items.len() {
                Some(&items[at])
            } else {
                None
            }
        },
        _ => None,
    }
}

/// A field that has to be there as a string.
fn read_text_field(value: &Json, at: usize, name: &str) -> (found: Option<String>)
    ensures
        match found {
            Some(text) => text_field(value@, at as int, name@) == Some(text@),
            None => text_field(value@, at as int, name@) is None,
        },
{
    match read_field(value, at, name) {
        Some(found) => match found.as_str() {
            Some(text) => Some(text.to_owned()),
            None => None,
        },
        None => None,
    }
}

/// A field that has to be there.
fn read_value_field(value: &Json, at: usize, name: &str) -> (found: Option<Json>)
    ensures
        optional_view(found) == field(value@, at as int, name@),
{
    match read_field(value, at, name) {
        Some(found) => Some(found.clone()),
        None => None,
    }
}

/// A field that may be left out or null.
fn read_optional_field(value: &Json, at: usize, name: &str) -> (found: Option<Json>)
    ensures
        optional_view(found) == optional_field(value@, at as int, name@),
{
    match read_field(value, at, name) {
        Some(found) => match found {
            Json::Null => None,
            _ => Some(found.clone()),
        },
        None => None,
    }
}

/// Whether a value can be a record of `size` fields.
fn read_is_record(value: &Json, size: usize) -> (answer: bool)
    ensures
        answer == is_record(value@, size as int),
{
    match value {
        Json::Object(_) => true,
        Json::Array(items) => {
            proof {
                lemma_items_view(items@);
            }
            items.len() <= size
        },
        _ => false,
    }
}

fn read_request(value: &Json) -> (request: Option<JsonRpcRequest>)
    ensures
        match request {
            Some(r) => request_of(value@) == Some(r@),
            None => request_of(value@) is None,
        },
{
    match (
        read_text_field(value, 0, "jsonrpc"),
        read_value_field(value, 1, "id"),
        read_text_field(value, 2, "method"),
    ) {
        (Some(jsonrpc), Some(id), Some(method)) => if read_is_record(value, 4) {
            let params = read_optional_field(value, 3, "params");
            Some(JsonRpcRequest { jsonrpc, id, method, params })
        } else {
            None
        },
        _ => None,
    }
}

fn read_response(value: &Json) -> (response: Option<JsonRpcResponse>)
    ensures
        match response {
            Some(r) => response_of(value@) == Some(r@),
            None => response_of(value@) is None,
        },
{
    match (
        read_text_field(value, 0, "jsonrpc"),
        read_value_field(value, 1, "id"),
        read_value_field(value, 2, "result"),
    ) {
        (Some(jsonrpc), Some(id), Some(result)) => if read_is_record(value, 3) {
            Some(JsonRpcResponse { jsonrpc, id, result })
        } else {
            None
        },
        _ => None,
    }
}

fn read_error(value: &Json) -> (error: Option<JsonRpcError>)
    ensures
        match error {
            Some(e) => error_of(value@) == Some(e@),
            None => error_of(value@) is None,
        },
{
    match (read_field(value, 0, "code"), read_text_field(value, 1, "message")) {
        (Some(code), Some(message)) => match code.as_i64() {
            Some(code) => if read_is_record(value, 3) {
                let data = read_optional_field(value, 2, "data");
                Some(JsonRpcError { code, message, data })
            } else {
                None
            },
            None => None,
        },
        _ => None,
    }
}

fn read_error_response(value: &Json) -> (response: Option<JsonRpcErrorResponse>)
    ensures
        match response {
            Some(r) => error_response_of(value@) == Some(r@),
            None => error_response_of(value@) is None,
        },
{
    match (
        read_text_field(value, 0, "jsonrpc"),
        read_value_field(value, 1, "id"),
        read_field(value, 2, "error"),
    ) {
        (Some(jsonrpc), Some(id), Some(found)) => match read_error(found) {
            Some(error) => if read_is_record(value, 3) {
                Some(JsonRpcErrorResponse { jsonrpc, id, error })
            } else {
                None
            },
            None => None,
        },
        _ => None,
    }
}

fn read_notification(value: &Json) -> (notification: Option<JsonRpcNotification>)
    ensures
        match notification {
            Some(n) => notification_of(value@) == Some(n@),
            None => notification_of(value@) is None,
        },
{
    match (read_text_field(value, 0, "jsonrpc"), read_text_field(value, 1, "method")) {
        (Some(jsonrpc), Some(method)) => if read_is_record(value, 3) {
            let params = read_optional_field(value, 2, "params");
            Some(JsonRpcNotification { jsonrpc, method, params })
        } else {
            None
        },
        _ => None,
    }
}

/// Reads the message that a value holds.
pub fn read_message(value: &Json) -> (message: Option<JsonRpcMessage>)
    ensures
        match message {
            Some(m) => message_of(value@) == Some(m@),
            None => message_of(value@) is None,
        },
{
    if let Some(request) = read_request(value) {
        return Some(JsonRpcMessage::Request(request));
    }
    if let Some(response) = read_response(value) {
        return Some(JsonRpcMessage::Response(response));
    }
    if let Some(error) = read_error_response(value) {
        return Some(JsonRpcMessage::ErrorResponse(error));
    }
    if let Some(notification) = read_notification(value) {
        return Some(JsonRpcMessage::Notification(notification));
    }
    None
}

/// Reads the message that a value holds whose text gives these members, where the
/// error in it gives those.
pub fn read_members_message(
    value: &Json,
    members: &Vec<(String, &str)>,
    error_members: &Vec<(String, &str)>,
) -> (message: Option<JsonRpcMessage>)
    ensures
        match message {
            Some(m) => message_of_members(value@, listed(members@), listed(error_members@)) == Some(
                m@,
            ),
            None => message_of_members(value@, listed(members@), listed(error_members@)) is None,
        },
{
    let request_fields: [&str; 4] = ["jsonrpc", "id", "method", "params"];
    let response_fields: [&str; 3] = ["jsonrpc", "id", "result"];
    let error_response_fields: [&str; 3] = ["jsonrpc", "id", "error"];
    let error_fields: [&str; 3] = ["code", "message", "data"];
    let notification_fields: [&str; 3] = ["jsonrpc", "method", "params"];
    proof {
        assert(names_view(request_fields@) =~= seq!["jsonrpc"@, "id"@, "method"@, "params"@]);
        assert(names_view(response_fields@) =~= seq!["jsonrpc"@, "id"@, "result"@]);
        assert(names_view(error_response_fields@) =~= seq!["jsonrpc"@, "id"@, "error"@]);
        assert(names_view(error_fields@) =~= seq!["code"@, "message"@, "data"@]);
        assert(names_view(notification_fields@) =~= seq!["jsonrpc"@, "method"@, "params"@]);
    }
    if let Some(request) = read_request(value) {
        if !is_any_repeated(members, request_fields.as_slice()) {
            return Some(JsonRpcMessage::Request(request));
        }
    }
    if let Some(response) = read_response(value) {
        if !is_any_repeated(members, response_fields.as_slice()) {
            return Some(JsonRpcMessage::Response(response));
        }
    }
    if let Some(error) = read_error_response(value) {
        if !is_any_repeated(members, error_response_fields.as_slice()) && !is_any_repeated(
            error_members,
            error_fields.as_slice(),
        ) {
            return Some(JsonRpcMessage::ErrorResponse(error));
        }
    }
    if let Some(notification) = read_notification(value) {
        if !is_any_repeated(members, notification_fields.as_slice()) {
            return Some(JsonRpcMessage::Notification(notification));
        }
    }
    None
}

/// A text as a value.
pub open spec fn text_leaf(text: Seq<char>) -> Layout {
    Layout::Leaf(JsonView::Str(text))
}

/// An integer as a value.
pub open spec fn integer_view(number: i64) -> JsonView {
    if number >= 0 {
        JsonView::Number(NumberView::Unsigned(number as u64))
    } else {
        JsonView::Number(NumberView::Negative(number))
    }
}

/// The members with one more, where there is one.
pub open spec fn with_optional(
    members: Seq<(Seq<char>, Layout)>,
    name: Seq<char>,
    value: Option<JsonView>,
) -> Seq<(Seq<char>, Layout)> {
    match value {
        Some(v) => members.push((name, Layout::Leaf(v))),
        None => members,
    }
}

/// An error, as it is written.
pub open spec fn error_layout(error: ErrorView) -> Layout {
    Layout::Object(
        with_optional(
            seq![
                ("code"@, Layout::Leaf(integer_view(error.code))),
                ("message"@, text_leaf(error.message)),
            ],
            "data"@,
            error.data,
        ),
    )
}

/// A message, as it is written.
pub open spec fn message_layout(message: MessageView) -> Layout {
    match message {
        MessageView::Request(r) => Layout::Object(
            with_optional(
                seq![
                    ("jsonrpc"@, text_leaf(r.jsonrpc)),
                    ("id"@, Layout::Leaf(r.id)),
                    ("method"@, text_leaf(r.method)),
                ],
                "params"@,
                r.params,
            ),
        ),
        MessageView::Response(r) => Layout::Object(
            seq![
                ("jsonrpc"@, text_leaf(r.jsonrpc)),
                ("id"@, Layout::Leaf(r.id)),
                ("result"@, Layout::Leaf(r.result)),
            ],
        ),
        MessageView::ErrorResponse(r) => Layout::Object(
            seq![
                ("jsonrpc"@, text_leaf(r.jsonrpc)),
                ("id"@, Layout::Leaf(r.id)),
                ("error"@, error_layout(r.error)),
            ],
        ),
        MessageView::Notification(n) => Layout::Object(
            with_optional(
                seq![("jsonrpc"@, text_leaf(n.jsonrpc)), ("method"@, text_leaf(n.method))],
                "params"@,
                n.params,
            ),
        ),
    }
}

/// The text that a message is written as.
pub open spec fn message_text(message: MessageView) -> Seq<char> {
    layout_text(message_layout(message))
}

/// The value that a message is written as.
pub open spec fn message_value(message: MessageView) -> JsonView {
    layout_value(message_layout(message))
}

/// Whether a message is read back from its text: its values hold integers only
/// and do not nest too deep.
pub open spec fn message_fits(message: MessageView) -> bool {
    layout_fits(message_layout(message), MAX_DEPTH as nat)
}

/// What is left of an optional value once written and read: null is nothing.
pub open spec fn settled(value: Option<JsonView>) -> Option<JsonView> {
    match value {
        Some(JsonView::Null) => None,
        other => other,
    }
}

/// What is left of a message once written and read.
pub open spec fn settled_message(message: MessageView) -> MessageView {
    match message {
        MessageView::Request(r) => MessageView::Request(
            RequestView { params: settled(r.params), ..r },
        ),
        MessageView::Response(r) => message,
        MessageView::ErrorResponse(r) => MessageView::ErrorResponse(
            ErrorResponseView {
                error: ErrorView { data: settled(r.error.data), ..r.error },
                ..r
            },
        ),
        MessageView::Notification(n) => MessageView::Notification(
            NotificationView { params: settled(n.params), ..n },
        ),
    }
}

proof fn lemma_names()
    ensures
        "jsonrpc"@ != "id"@,
        "jsonrpc"@ != "method"@,
        "jsonrpc"@ != "params"@,
        "jsonrpc"@ != "result"@,
        "jsonrpc"@ != "error"@,
        "id"@ != "method"@,
        "id"@ != "params"@,
        "id"@ != "result"@,
        "id"@ != "error"@,
        "method"@ != "params"@,
        "method"@ != "result"@,
        "method"@ != "error"@,
        "result"@ != "error"@,
        "code"@ != "message"@,
        "code"@ != "data"@,
        "message"@ != "data"@,
{
    reveal_strlit("jsonrpc");
    reveal_strlit("id");
    reveal_strlit("method");
    reveal_strlit("params");
    reveal_strlit("result");
    reveal_strlit("error");
    reveal_strlit("code");
    reveal_strlit("message");
    reveal_strlit("data");
    assert("jsonrpc"@.len() == 7 && "id"@.len() == 2 && "error"@.len() == 5);
    assert("method"@.len() == 6 && "params"@.len() == 6 && "result"@.len() == 6);
    assert("method"@[0] == 'm' && "params"@[0] == 'p' && "result"@[0] == 'r');
    assert("code"@.len() == 4 && "message"@.len() == 7 && "data"@.len() == 4);
    assert("code"@[0] == 'c' && "data"@[0] == 'd');
}

/// The members of an object that is written as two, three or four members.
proof fn lemma_layout_members(members: Seq<(Seq<char>, Layout)>)
    ensures
        members.len() > 0 ==> layout_members(members) == layout_members(
            members.drop_last(),
        ).insert(members.last().0, layout_value(members.last().1)),
        members.len() == 0 ==> layout_members(members) == Map::<Seq<char>, JsonView>::empty(),
{
}

proof fn lemma_error_back(error: ErrorView)
    ensures
        error_of(layout_value(error_layout(error))) == Some(
            ErrorView { data: settled(error.data), ..error },
        ),
{
    lemma_names();
    let two = seq![
        ("code"@, Layout::Leaf(integer_view(error.code))),
        ("message"@, text_leaf(error.message)),
    ];
    let one = two.drop_last();
    lemma_layout_members(two);
    lemma_layout_members(one);
    lemma_layout_members(one.drop_last());
    if error.data is Some {
        let three = two.push(("data"@, Layout::Leaf(error.data->0)));
        assert(three.drop_last() =~= two);
        lemma_layout_members(three);
    }
}

/// A message is read back from the value that it is written as; an optional
/// value that is null is read back as left out.
pub proof fn law_message_value_round_trip(message: MessageView)
    ensures
        message_of(message_value(message)) == Some(settled_message(message)),
{
    lemma_names();
    match message {
        MessageView::Request(r) => {
            let three = seq![
                ("jsonrpc"@, text_leaf(r.jsonrpc)),
                ("id"@, Layout::Leaf(r.id)),
                ("method"@, text_leaf(r.method)),
            ];
            lemma_layout_members(three);
            lemma_layout_members(three.drop_last());
            lemma_layout_members(three.drop_last().drop_last());
            lemma_layout_members(three.drop_last().drop_last().drop_last());
            if r.params is Some {
                let four = three.push(("params"@, Layout::Leaf(r.params->0)));
                assert(four.drop_last() =~= three);
                lemma_layout_members(four);
            }
        },
        MessageView::Response(r) => {
            let three = seq![
                ("jsonrpc"@, text_leaf(r.jsonrpc)),
                ("id"@, Layout::Leaf(r.id)),
                ("result"@, Layout::Leaf(r.result)),
            ];
            lemma_layout_members(three);
            lemma_layout_members(three.drop_last());
            lemma_layout_members(three.drop_last().drop_last());
            lemma_layout_members(three.drop_last().drop_last().drop_last());
        },
        MessageView::ErrorResponse(r) => {
            let three = seq![
                ("jsonrpc"@, text_leaf(r.jsonrpc)),
                ("id"@, Layout::Leaf(r.id)),
                ("error"@, error_layout(r.error)),
            ];
            lemma_layout_members(three);
            lemma_layout_members(three.drop_last());
            lemma_layout_members(three.drop_last().drop_last());
            lemma_layout_members(three.drop_last().drop_last().drop_last());
            lemma_error_back(r.error);
        },
        MessageView::Notification(n) => {
            let two = seq![("jsonrpc"@, text_leaf(n.jsonrpc)), ("method"@, text_leaf(n.method))];
            lemma_layout_members(two);
            lemma_layout_members(two.drop_last());
            lemma_layout_members(two.drop_last().drop_last());
            if n.params is Some {
                let three = two.push(("params"@, Layout::Leaf(n.params->0)));
                assert(three.drop_last() =~= two);
                lemma_layout_members(three);
            }
        },
    }
}

/// The members that a message is written as.
pub open spec fn message_members(message: MessageView) -> Seq<(Seq<char>, Layout)> {
    message_layout(message)->Object_0
}

/// A message is read back from the value and the members that it is written as,
/// and an error from those that it is written as: no name is repeated there.
pub proof fn law_message_members_round_trip(
    message: MessageView,
    error_members: Seq<(Seq<char>, Seq<char>)>,
)
    requires
        message matches MessageView::ErrorResponse(r) ==> error_members == written(
            error_layout(r.error)->Object_0,
        ),
    ensures
        message_layout(message) == Layout::Object(message_members(message)),
        message_of_members(
            message_value(message),
            written(message_members(message)),
            error_members,
        ) == Some(settled_message(message)),
{
    law_message_value_round_trip(message);
    lemma_names();
    let members = message_members(message);
    lemma_unrepeated(members);
    if let MessageView::ErrorResponse(r) = message {
        lemma_unrepeated(error_layout(r.error)->Object_0);
    }
}

/// A message is written as an object with members; the last of an error response
/// is its error, which is written as an object with members too.
pub(crate) proof fn lemma_written_members(message: MessageView)
    ensures
        message_layout(message) == Layout::Object(message_members(message)),
        message_members(message).len() > 0,
        message matches MessageView::ErrorResponse(r) ==> {
            let members = error_layout(r.error)->Object_0;
            &&& value_text(written(message_members(message)), "error"@) == layout_text(
                Layout::Object(members),
            )
            &&& members.len() > 0
            &&& message_fits(message) ==> layout_fits(Layout::Object(members), MAX_DEPTH as nat)
        },
{
    if let MessageView::ErrorResponse(r) = message {
        let members = message_members(message);
        assert(members.last() == ("error"@, error_layout(r.error)));
        assert(written(members).last() == ("error"@, layout_text(error_layout(r.error))));
        if message_fits(message) {
            assert(layout_fits(members[2].1, (MAX_DEPTH - 1) as nat));
            lemma_layout_fits_deeper(
                error_layout(r.error),
                (MAX_DEPTH - 1) as nat,
                MAX_DEPTH as nat,
            );
        }
    }
}

/// An integer as a value.
pub fn integer_value(number: i64) -> (value: Json)
    ensures
        value@ == integer_view(number),
{
    if number >= 0 {
        Json::Number(JsonNumber::Unsigned(number as u64))
    } else {
        Json::Number(JsonNumber::Negative(number))
    }
}

/// Adds a member, where there is one.
fn write_optional(object: ObjectText, name: &str, value: &Option<Json>) -> (longer: ObjectText)
    ensures
        longer.members() == with_optional(object.members(), name@, optional_view(*value)),
{
    match value {
        Some(v) => object.value(name, v),
        None => object,
    }
}

fn write_error(error: &JsonRpcError) -> (text: String)
    ensures
        text@ == layout_text(error_layout(error@)),
{
    let object = ObjectText::new().value("code", &integer_value(error.code)).value(
        "message",
        &Json::String(error.message.clone()),
    );
    proof {
        assert(object.members() =~= seq![
            ("code"@, Layout::Leaf(integer_view(error.code))),
            ("message"@, text_leaf(error.message@)),
        ]);
    }
    write_optional(object, "data", &error.data).finish()
}

/// Writes a message as text.
pub fn write_message(message: &JsonRpcMessage) -> (text: String)
    ensures
        text@ == message_text(message@),
{
    match message {
        JsonRpcMessage::Request(r) => {
            let object = ObjectText::new().value("jsonrpc", &Json::String(r.jsonrpc.clone())).value(
                "id",
                &r.id,
            ).value("method", &Json::String(r.method.clone()));
            proof {
                assert(object.members() =~= seq![
                    ("jsonrpc"@, text_leaf(r.jsonrpc@)),
                    ("id"@, Layout::Leaf(r.id@)),
                    ("method"@, text_leaf(r.method@)),
                ]);
            }
            write_optional(object, "params", &r.params).finish()
        },
        JsonRpcMessage::Response(r) => {
            let object = ObjectText::new().value("jsonrpc", &Json::String(r.jsonrpc.clone())).value(
                "id",
                &r.id,
            ).value("result", &r.result);
            proof {
                assert(object.members() =~= seq![
                    ("jsonrpc"@, text_leaf(r.jsonrpc@)),
                    ("id"@, Layout::Leaf(r.id@)),
                    ("result"@, Layout::Leaf(r.result@)),
                ]);
            }
            object.finish()
        },
        JsonRpcMessage::ErrorResponse(r) => {
            let error = write_error(&r.error);
            let object = ObjectText::new().value("jsonrpc", &Json::String(r.jsonrpc.clone())).value(
                "id",
                &r.id,
            ).member("error", error.as_str(), Ghost(error_layout(r.error@)));
            proof {
                assert(object.members() =~= seq![
                    ("jsonrpc"@, text_leaf(r.jsonrpc@)),
                    ("id"@, Layout::Leaf(r.id@)),
                    ("error"@, error_layout(r.error@)),
                ]);
            }
            object.finish()
        },
        JsonRpcMessage::Notification(n) => {
            let object = ObjectText::new().value("jsonrpc", &Json::String(n.jsonrpc.clone())).value(
                "method",
                &Json::String(n.method.clone()),
            );
            proof {
                assert(object.members() =~= seq![
                    ("jsonrpc"@, text_leaf(n.jsonrpc@)),
                    ("method"@, text_leaf(n.method@)),
                ]);
            }
            write_optional(object, "params", &n.params).finish()
        },
    }
}

/// The members that a list of named values stands for.
proof fn lemma_members_push(members: Seq<(String, Json)>, name: String, value: Json)
    ensures
        members_view(members.push((name, value))) == members_view(members).insert(name@, value@),
{
    assert(members.push((name, value)).drop_last() =~= members);
}

/// Adds a member.
pub(crate) fn push_member(members: &mut Vec<(String, Json)>, name: &str, value: Json)
    ensures
        members_view(final(members)@) == members_view(old(members)@).insert(name@, value@),
{
    let name = name.to_owned();
    proof {
        lemma_members_push(members@, name, value);
    }
    members.push((name, value));
}

/// Adds a member, where there is one.
fn push_optional(members: &mut Vec<(String, Json)>, name: &str, value: &Option<Json>)
    ensures
        members_view(final(members)@) == match optional_view(*value) {
            Some(v) => members_view(old(members)@).insert(name@, v),
            None => members_view(old(members)@),
        },
{
    match value {
        Some(v) => push_member(members, name, v.clone()),
        None => {},
    }
}

fn error_to_value(error: &JsonRpcError) -> (value: Json)
    ensures
        value@ == layout_value(error_layout(error@)),
{
    let mut members: Vec<(String, Json)> = Vec::new();
    push_member(&mut members, "code", integer_value(error.code));
    push_member(&mut members, "message", Json::String(error.message.clone()));
    push_optional(&mut members, "data", &error.data);
    proof {
        let two = seq![
            ("code"@, Layout::Leaf(integer_view(error.code))),
            ("message"@, text_leaf(error.message@)),
        ];
        lemma_layout_members(two);
        lemma_layout_members(two.drop_last());
        lemma_layout_members(two.drop_last().drop_last());
        if error.data is Some {
            let three = two.push(("data"@, Layout::Leaf(error.data->0@)));
            assert(three.drop_last() =~= two);
            lemma_layout_members(three);
        }
    }
    Json::Object(members)
}

/// Writes a message as a value.
pub fn message_to_value(message: &JsonRpcMessage) -> (value: Json)
    ensures
        value@ == message_value(message@),
{
    let mut members: Vec<(String, Json)> = Vec::new();
    match message {
        JsonRpcMessage::Request(r) => {
            push_member(&mut members, "jsonrpc", Json::String(r.jsonrpc.clone()));
            push_member(&mut members, "id", r.id.clone());
            push_member(&mut members, "method", Json::String(r.method.clone()));
            push_optional(&mut members, "params", &r.params);
            proof {
                let three = seq![
                    ("jsonrpc"@, text_leaf(r.jsonrpc@)),
                    ("id"@, Layout::Leaf(r.id@)),
                    ("method"@, text_leaf(r.method@)),
                ];
                lemma_layout_members(three);
                lemma_layout_members(three.drop_last());
                lemma_layout_members(three.drop_last().drop_last());
                lemma_layout_members(three.drop_last().drop_last().drop_last());
                if r.params is Some {
                    let four = three.push(("params"@, Layout::Leaf(r.params->0@)));
                    assert(four.drop_last() =~= three);
                    lemma_layout_members(four);
                }
            }
        },
        JsonRpcMessage::Response(r) => {
            push_member(&mut members, "jsonrpc", Json::String(r.jsonrpc.clone()));
            push_member(&mut members, "id", r.id.clone());
            push_member(&mut members, "result", r.result.clone());
            proof {
                let three = seq![
                    ("jsonrpc"@, text_leaf(r.jsonrpc@)),
                    ("id"@, Layout::Leaf(r.id@)),
                    ("result"@, Layout::Leaf(r.result@)),
                ];
                lemma_layout_members(three);
                lemma_layout_members(three.drop_last());
                lemma_layout_members(three.drop_last().drop_last());
                lemma_layout_members(three.drop_last().drop_last().drop_last());
            }
        },
        JsonRpcMessage::ErrorResponse(r) => {
            push_member(&mut members, "jsonrpc", Json::String(r.jsonrpc.clone()));
            push_member(&mut members, "id", r.id.clone());
            push_member(&mut members, "error", error_to_value(&r.error));
            proof {
                let three = seq![
                    ("jsonrpc"@, text_leaf(r.jsonrpc@)),
                    ("id"@, Layout::Leaf(r.id@)),
                    ("error"@, error_layout(r.error@)),
                ];
                lemma_layout_members(three);
                lemma_layout_members(three.drop_last());
                lemma_layout_members(three.drop_last().drop_last());
                lemma_layout_members(three.drop_last().drop_last().drop_last());
            }
        },
        JsonRpcMessage::Notification(n) => {
            push_member(&mut members, "jsonrpc", Json::String(n.jsonrpc.clone()));
            push_member(&mut members, "method", Json::String(n.method.clone()));
            push_optional(&mut members, "params", &n.params);
            proof {
                let two = seq![
                    ("jsonrpc"@, text_leaf(n.jsonrpc@)),
                    ("method"@, text_leaf(n.method@)),
                ];
                lemma_layout_members(two);
                lemma_layout_members(two.drop_last());
                lemma_layout_members(two.drop_last().drop_last());
                if n.params is Some {
                    let three = two.push(("params"@, Layout::Leaf(n.params->0@)));
                    assert(three.drop_last() =~= two);
                    lemma_layout_members(three);
                }
            }
        },
    }
    Json::Object(members)
}

} // verus!
