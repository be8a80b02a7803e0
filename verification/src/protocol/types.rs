//! The data of the protocol: modes, server information and JSON-RPC messages.

use crate::protocol::constants::{EPHEMERAL_GIFT_WRAP_KIND, GIFT_WRAP_KIND};
use crate::protocol::json::{Json, JsonView};
use crate::util::text::{clone_text, optional_text};
use vstd::prelude::*;

verus! {

/// Encryption mode for transport communication.
#[derive(Debug, Clone, Copy, PartialEq, Eq, Structural)]
pub enum EncryptionMode {
    /// Encrypt messages if the incoming message was encrypted.
    Optional,
    /// Enforce encryption for all messages.
    Required,
    /// Disable encryption entirely.
    Disabled,
}

impl Default for EncryptionMode {
    fn default() -> (mode: Self)
        ensures
            mode == EncryptionMode::Optional,
    {
        EncryptionMode::Optional
    }
}

/// Which gift-wrap kinds are used for encrypted messages.
#[derive(Debug, Clone, Copy, PartialEq, Eq, Structural)]
pub enum GiftWrapMode {
    /// Both kinds are accepted; an answer mirrors the kind of its request.
    Optional,
    /// Ephemeral gift wraps only.
    Ephemeral,
    /// Persistent gift wraps only.
    Persistent,
}

impl Default for GiftWrapMode {
    fn default() -> (mode: Self)
        ensures
            mode == GiftWrapMode::Optional,
    {
        GiftWrapMode::Optional
    }
}

/// Whether events of that kind are gift wraps.
pub open spec fn is_wrap_kind(kind: u16) -> bool {
    kind == GIFT_WRAP_KIND || kind == EPHEMERAL_GIFT_WRAP_KIND
}

impl GiftWrapMode {
    /// Whether gift wraps of that kind are accepted.
    pub open spec fn accepts(self, kind: u16) -> bool {
        match self {
            GiftWrapMode::Optional => is_wrap_kind(kind),
            GiftWrapMode::Ephemeral => kind == EPHEMERAL_GIFT_WRAP_KIND,
            GiftWrapMode::Persistent => kind == GIFT_WRAP_KIND,
        }
    }

    /// Whether gift wraps of that kind are accepted.
    pub fn allows_kind(self, kind: u16) -> (allowed: bool)
        ensures
            allowed == self.accepts(kind),
    {
        match self {
            GiftWrapMode::Optional => kind == GIFT_WRAP_KIND || kind == EPHEMERAL_GIFT_WRAP_KIND,
            GiftWrapMode::Ephemeral => kind == EPHEMERAL_GIFT_WRAP_KIND,
            GiftWrapMode::Persistent => kind == GIFT_WRAP_KIND,
        }
    }

    /// Whether ephemeral gift wraps are used at all.
    pub fn supports_ephemeral(self) -> (supported: bool)
        ensures
            supported == self.accepts(EPHEMERAL_GIFT_WRAP_KIND),
    {
        match self {
            GiftWrapMode::Persistent => false,
            _ => true,
        }
    }
}

/// Server information for announcements.
#[derive(Debug)]
pub struct ServerInfo {
    pub name: Option<String>,
    pub version: Option<String>,
    pub picture: Option<String>,
    pub website: Option<String>,
    pub about: Option<String>,
}

impl Default for ServerInfo {
    fn default() -> (info: Self)
        ensures
            info.name is None,
            info.version is None,
            info.picture is None,
            info.website is None,
            info.about is None,
    {
        ServerInfo { name: None, version: None, picture: None, website: None, about: None }
    }
}

/// What a [`ServerInfo`] says.
pub struct InfoView {
    pub name: Option<Seq<char>>,
    pub version: Option<Seq<char>>,
    pub picture: Option<Seq<char>>,
    pub website: Option<Seq<char>>,
    pub about: Option<Seq<char>>,
}

impl View for ServerInfo {
    type V = InfoView;

    open spec fn view(&self) -> InfoView {
        InfoView {
            name: optional_text(self.name),
            version: optional_text(self.version),
            picture: optional_text(self.picture),
            website: optional_text(self.website),
            about: optional_text(self.about),
        }
    }
}

impl Clone for ServerInfo {
    fn clone(&self) -> (copy: Self)
        ensures
            copy@ == self@,
    {
        ServerInfo {
            name: clone_text(&self.name),
            version: clone_text(&self.version),
            picture: clone_text(&self.picture),
            website: clone_text(&self.website),
            about: clone_text(&self.about),
        }
    }
}

/// A capability exclusion pattern that bypasses pubkey whitelisting.
#[derive(Debug)]
pub struct CapabilityExclusion {
    /// The JSON-RPC method to exclude (e.g., "tools/call", "tools/list").
    pub method: String,
    /// Optional capability name for method-specific exclusions (e.g., "get_weather").
    pub name: Option<String>,
}

/// What a [`CapabilityExclusion`] says.
pub struct ExclusionView {
    pub method: Seq<char>,
    pub name: Option<Seq<char>>,
}

impl View for CapabilityExclusion {
    type V = ExclusionView;

    open spec fn view(&self) -> ExclusionView {
        ExclusionView { method: self.method@, name: optional_text(self.name) }
    }
}

impl Clone for CapabilityExclusion {
    fn clone(&self) -> (copy: Self)
        ensures
            copy@ == self@,
    {
        CapabilityExclusion { method: self.method.clone(), name: clone_text(&self.name) }
    }
}

/// A JSON-RPC 2.0 message (request, response, notification, or error).
#[derive(Debug)]
pub enum JsonRpcMessage {
    Request(JsonRpcRequest),
    Response(JsonRpcResponse),
    ErrorResponse(JsonRpcErrorResponse),
    Notification(JsonRpcNotification),
}

/// A JSON-RPC 2.0 request.
#[derive(Debug)]
pub struct JsonRpcRequest {
    pub jsonrpc: String,
    pub id: Json,
    pub method: String,
    pub params: Option<Json>,
}

/// A JSON-RPC 2.0 response (success).
#[derive(Debug)]
pub struct JsonRpcResponse {
    pub jsonrpc: String,
    pub id: Json,
    pub result: Json,
}

/// A JSON-RPC 2.0 error response.
#[derive(Debug)]
pub struct JsonRpcErrorResponse {
    pub jsonrpc: String,
    pub id: Json,
    pub error: JsonRpcError,
}

/// A JSON-RPC 2.0 error object.
#[derive(Debug)]
pub struct JsonRpcError {
    pub code: i64,
    pub message: String,
    pub data: Option<Json>,
}

/// A JSON-RPC 2.0 notification (no id, no response expected).
#[derive(Debug)]
pub struct JsonRpcNotification {
    pub jsonrpc: String,
    pub method: String,
    pub params: Option<Json>,
}

/// What a [`JsonRpcRequest`] says.
pub struct RequestView {
    pub jsonrpc: Seq<char>,
    pub id: JsonView,
    pub method: Seq<char>,
    pub params: Option<JsonView>,
}

/// What a [`JsonRpcResponse`] says.
pub struct ResponseView {
    pub jsonrpc: Seq<char>,
    pub id: JsonView,
    pub result: JsonView,
}

/// What a [`JsonRpcErrorResponse`] says.
pub struct ErrorResponseView {
    pub jsonrpc: Seq<char>,
    pub id: JsonView,
    pub error: ErrorView,
}

/// What a [`JsonRpcError`] says.
pub struct ErrorView {
    pub code: i64,
    pub message: Seq<char>,
    pub data: Option<JsonView>,
}

/// What a [`JsonRpcNotification`] says.
pub struct NotificationView {
    pub jsonrpc: Seq<char>,
    pub method: Seq<char>,
    pub params: Option<JsonView>,
}

/// What a [`JsonRpcMessage`] says.
pub enum MessageView {
    Request(RequestView),
    Response(ResponseView),
    ErrorResponse(ErrorResponseView),
    Notification(NotificationView),
}

/// The view of an optional value.
pub open spec fn optional_view(value: Option<Json>) -> Option<JsonView> {
    match value {
        Some(v) => Some(v@),
        None => None,
    }
}

impl View for JsonRpcRequest {
    type V = RequestView;

    open spec fn view(&self) -> RequestView {
        RequestView {
            jsonrpc: self.jsonrpc@,
            id: self.id@,
            method: self.method@,
            params: optional_view(self.params),
        }
    }
}

impl View for JsonRpcResponse {
    type V = ResponseView;

    open spec fn view(&self) -> ResponseView {
        ResponseView { jsonrpc: self.jsonrpc@, id: self.id@, result: self.result@ }
    }
}

impl View for JsonRpcErrorResponse {
    type V = ErrorResponseView;

    open spec fn view(&self) -> ErrorResponseView {
        ErrorResponseView { jsonrpc: self.jsonrpc@, id: self.id@, error: self.error@ }
    }
}

impl View for JsonRpcError {
    type V = ErrorView;

    open spec fn view(&self) -> ErrorView {
        ErrorView { code: self.code, message: self.message@, data: optional_view(self.data) }
    }
}

impl View for JsonRpcNotification {
    type V = NotificationView;

    open spec fn view(&self) -> NotificationView {
        NotificationView {
            jsonrpc: self.jsonrpc@,
            method: self.method@,
            params: optional_view(self.params),
        }
    }
}

impl View for JsonRpcMessage {
    type V = MessageView;

    open spec fn view(&self) -> MessageView {
        match *self {
            JsonRpcMessage::Request(r) => MessageView::Request(r@),
            JsonRpcMessage::Response(r) => MessageView::Response(r@),
            JsonRpcMessage::ErrorResponse(r) => MessageView::ErrorResponse(r@),
            JsonRpcMessage::Notification(n) => MessageView::Notification(n@),
        }
    }
}

impl MessageView {
    /// The method of a request or notification.
    pub open spec fn method(self) -> Option<Seq<char>> {
        match self {
            MessageView::Request(r) => Some(r.method),
            MessageView::Notification(n) => Some(n.method),
            _ => None,
        }
    }

    /// The id of a request or of an answer to one.
    pub open spec fn id(self) -> Option<JsonView> {
        match self {
            MessageView::Request(r) => Some(r.id),
            MessageView::Response(r) => Some(r.id),
            MessageView::ErrorResponse(r) => Some(r.id),
            MessageView::Notification(_) => None,
        }
    }

    /// The same message, where it is an answer, with another id.
    pub open spec fn answering(self, id: JsonView) -> MessageView {
        match self {
            MessageView::Response(r) => MessageView::Response(ResponseView { id, ..r }),
            MessageView::ErrorResponse(r) => MessageView::ErrorResponse(
                ErrorResponseView { id, ..r },
            ),
            _ => self,
        }
    }
}

/// A copy of an optional value.
pub fn clone_optional(value: &Option<Json>) -> (copy: Option<Json>)
    ensures
        optional_view(copy) == optional_view(*value),
{
    match value {
        Some(v) => Some(v.clone()),
        None => None,
    }
}

impl Clone for JsonRpcRequest {
    fn clone(&self) -> (copy: Self)
        ensures
            copy@ == self@,
    {
        JsonRpcRequest {
            jsonrpc: self.jsonrpc.clone(),
            id: self.id.clone(),
            method: self.method.clone(),
            params: clone_optional(&self.params),
        }
    }
}

impl Clone for JsonRpcResponse {
    fn clone(&self) -> (copy: Self)
        ensures
            copy@ == self@,
    {
        JsonRpcResponse {
            jsonrpc: self.jsonrpc.clone(),
            id: self.id.clone(),
            result: self.result.clone(),
        }
    }
}

impl Clone for JsonRpcErrorResponse {
    fn clone(&self) -> (copy: Self)
        ensures
            copy@ == self@,
    {
        JsonRpcErrorResponse {
            jsonrpc: self.jsonrpc.clone(),
            id: self.id.clone(),
            error: self.error.clone(),
        }
    }
}

impl Clone for JsonRpcError {
    fn clone(&self) -> (copy: Self)
        ensures
            copy@ == self@,
    {
        JsonRpcError {
            code: self.code,
            message: self.message.clone(),
            data: clone_optional(&self.data),
        }
    }
}

impl Clone for JsonRpcNotification {
    fn clone(&self) -> (copy: Self)
        ensures
            copy@ == self@,
    {
        JsonRpcNotification {
            jsonrpc: self.jsonrpc.clone(),
            method: self.method.clone(),
            params: clone_optional(&self.params),
        }
    }
}

impl Clone for JsonRpcMessage {
    fn clone(&self) -> (copy: Self)
        ensures
            copy@ == self@,
    {
        match self {
            JsonRpcMessage::Request(r) => JsonRpcMessage::Request(r.clone()),
            JsonRpcMessage::Response(r) => JsonRpcMessage::Response(r.clone()),
            JsonRpcMessage::ErrorResponse(r) => JsonRpcMessage::ErrorResponse(r.clone()),
            JsonRpcMessage::Notification(n) => JsonRpcMessage::Notification(n.clone()),
        }
    }
}

impl JsonRpcMessage {
    /// Check if this is a request (has id + method).
    pub fn is_request(&self) -> (answer: bool)
        ensures
            answer == (self@ is Request),
    {
        matches!(self, JsonRpcMessage::Request(_))
    }

    /// Check if this is a response (has id + result).
    pub fn is_response(&self) -> (answer: bool)
        ensures
            answer == (self@ is Response),
    {
        matches!(self, JsonRpcMessage::Response(_))
    }

    /// Check if this is an error response (has id + error).
    pub fn is_error(&self) -> (answer: bool)
        ensures
            answer == (self@ is ErrorResponse),
    {
        matches!(self, JsonRpcMessage::ErrorResponse(_))
    }

    /// Check if this is a notification (has method, no id).
    pub fn is_notification(&self) -> (answer: bool)
        ensures
            answer == (self@ is Notification),
    {
        matches!(self, JsonRpcMessage::Notification(_))
    }

    /// Get the method name if this is a request or notification.
    pub fn method(&self) -> (method: Option<&str>)
        ensures
            match method {
                Some(m) => self@.method() == Some(m@),
                None => self@.method() is None,
            },
    {
        match self {
            JsonRpcMessage::Request(r) => Some(r.method.as_str()),
            JsonRpcMessage::Notification(n) => Some(n.method.as_str()),
            _ => None,
        }
    }

    /// Get the request/response id if present.
    pub fn id(&self) -> (id: Option<&Json>)
        ensures
            match id {
                Some(i) => self@.id() == Some(i@),
                None => self@.id() is None,
            },
    {
        match self {
            JsonRpcMessage::Request(r) => Some(&r.id),
            JsonRpcMessage::Response(r) => Some(&r.id),
            JsonRpcMessage::ErrorResponse(r) => Some(&r.id),
            JsonRpcMessage::Notification(_) => None,
        }
    }

    /// The same message, where it is an answer, with another id.
    pub fn with_id(self, id: &Json) -> (message: Self)
        ensures
            message@ == self@.answering(id@),
    {
        match self {
            JsonRpcMessage::Response(r) => JsonRpcMessage::Response(
                JsonRpcResponse { jsonrpc: r.jsonrpc, id: id.clone(), result: r.result },
            ),
            JsonRpcMessage::ErrorResponse(r) => JsonRpcMessage::ErrorResponse(
                JsonRpcErrorResponse { jsonrpc: r.jsonrpc, id: id.clone(), error: r.error },
            ),
            other => other,
        }
    }
}

} // verus!
