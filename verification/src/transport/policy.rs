//! The rules that a server follows: who may call what, which tags go with a
//! message, and which gift wrap it is sent in.

use crate::protocol::constants::{
    tags, DELETION_KIND, EPHEMERAL_GIFT_WRAP_KIND, GIFT_WRAP_KIND, INITIALIZE_METHOD,
    JSONRPC_VERSION, NOTIFICATIONS_INITIALIZED_METHOD, PROMPTS_LIST_KIND, RESOURCES_LIST_KIND,
    RESOURCETEMPLATES_LIST_KIND, SERVER_ANNOUNCEMENT_KIND, TOOLS_LIST_KIND, UNENCRYPTED_KINDS,
};
use crate::protocol::error::{is_other, Error};
use crate::protocol::json::{
    items_view, json_text, layout_text, member, members_view, text_of, to_text, Json, JsonView,
    Layout, ObjectText,
};
use crate::protocol::nostr::{
    clone_tags, extend_tags, push_tag, tags_view, EventId, EventTemplate, Tag, TemplateView,
};
use crate::protocol::types::{
    CapabilityExclusion, EncryptionMode, ErrorResponseView, ErrorView, ExclusionView, GiftWrapMode,
    InfoView, JsonRpcError, JsonRpcErrorResponse, JsonRpcMessage, MessageView, ServerInfo,
};
use crate::protocol::wire::text_leaf;
use crate::util::string_map::holds_text;
use crate::util::text::{contains_text, decimal, decimal_text, optional_str, same_text};
use vstd::prelude::*;

verus! {

/// Whether an exclusion is about that method, and, where it gives a name, about
/// that capability.
pub open spec fn exclusion_matches(
    exclusion: ExclusionView,
    method: Seq<char>,
    name: Option<Seq<char>>,
) -> bool {
    exclusion.method == method && (exclusion.name is None || exclusion.name == name)
}

/// Whether anybody may call that method, on that capability.
pub open spec fn is_excluded(
    excluded: Seq<CapabilityExclusion>,
    method: Seq<char>,
    name: Option<Seq<char>>,
) -> bool {
    ||| method == INITIALIZE_METHOD@
    ||| method == NOTIFICATIONS_INITIALIZED_METHOD@
    ||| exists|i: int|
        0 <= i < excluded.len() && exclusion_matches((#[trigger] excluded[i])@, method, name)
}

/// Whether anybody may call that method, on that capability.
pub fn is_capability_excluded(
    excluded: &[CapabilityExclusion],
    method: &str,
    name: Option<&str>,
) -> (answer: bool)
    ensures
        answer == is_excluded(excluded@, method@, optional_str(name)),
{
    // Always allow fundamental MCP methods
    if same_text(method, INITIALIZE_METHOD) || same_text(method, NOTIFICATIONS_INITIALIZED_METHOD) {
        return true;
    }
    let mut i: usize = 0;
    while i < excluded.len()
        invariant
            i <= excluded@.len(),
            forall|j: int|
                0 <= j < i ==> !exclusion_matches(
                    (#[trigger] excluded@[j])@,
                    method@,
                    optional_str(name),
                ),
        decreases excluded@.len() - i,
    {
        if same_text(excluded[i].method.as_str(), method) {
            let matched = match (&excluded[i].name, name) {
                (Some(wanted), Some(given)) => same_text(wanted.as_str(), given),
                (None, _) => true,  // method-only match
                _ => false,
            };
            if matched {
                assert(exclusion_matches(
                    excluded@[i as int]@,
                    method@,
                    optional_str(name),
                ));
                return true;
            }
        }
        i = i + 1;
    }
    false
}

/// The capability that a request names.
pub open spec fn requested_name(message: MessageView) -> Option<Seq<char>> {
    match message {
        MessageView::Request(request) => match request.params {
            Some(params) => match member(params, "name"@) {
                Some(name) => text_of(name),
                None => None,
            },
            None => None,
        },
        _ => None,
    }
}

/// The capability that a request names.
pub fn name_of_request(message: &JsonRpcMessage) -> (name: Option<&str>)
    ensures
        optional_str(name) == requested_name(message@),
{
    match message {
        JsonRpcMessage::Request(request) => match &request.params {
            Some(params) => match params.get("name") {
                Some(found) => found.as_str(),
                None => None,
            },
            None => None,
        },
        _ => None,
    }
}

/// Whether a client may send that message: everybody may where no keys are
/// listed, a listed key may send everything, and anybody may call what is
/// excluded from the list.
pub open spec fn is_authorized(
    allowed: Seq<String>,
    excluded: Seq<CapabilityExclusion>,
    sender: Seq<char>,
    message: MessageView,
) -> bool {
    let method = match message.method() {
        Some(method) => method,
        None => ""@,
    };
    ||| allowed.len() == 0
    ||| holds_text(allowed, sender)
    ||| is_excluded(excluded, method, requested_name(message))
}

/// Whether a client may send that message.
pub fn authorizes(
    allowed: &Vec<String>,
    excluded: &[CapabilityExclusion],
    sender: &str,
    message: &JsonRpcMessage,
) -> (answer: bool)
    ensures
        answer == is_authorized(allowed@, excluded@, sender@, message@),
{
    if allowed.len() == 0 {
        return true;
    }
    let method = match message.method() {
        Some(method) => method,
        None => "",
    };
    let name = name_of_request(message);
    contains_text(allowed, sender) || is_capability_excluded(excluded, method, name)
}

/// The tag of that name, where there is a value for it.
pub open spec fn optional_tag(name: Seq<char>, value: Option<Seq<char>>) -> Seq<Seq<Seq<char>>> {
    match value {
        Some(text) => seq![seq![name, text]],
        None => Seq::empty(),
    }
}

/// The tags that describe a server.
pub open spec fn info_tags(info: Option<InfoView>) -> Seq<Seq<Seq<char>>> {
    match info {
        Some(i) => optional_tag(tags::NAME@, i.name) + optional_tag(tags::ABOUT@, i.about)
            + optional_tag(tags::WEBSITE@, i.website) + optional_tag(tags::PICTURE@, i.picture),
        None => Seq::empty(),
    }
}

/// The tags that say what a server supports.
pub open spec fn capability_tags(mode: EncryptionMode, wraps: GiftWrapMode) -> Seq<
    Seq<Seq<char>>,
> {
    if mode == EncryptionMode::Disabled {
        Seq::empty()
    } else if wraps.accepts(EPHEMERAL_GIFT_WRAP_KIND) {
        seq![seq![tags::SUPPORT_ENCRYPTION@], seq![tags::SUPPORT_ENCRYPTION_EPHEMERAL@]]
    } else {
        seq![seq![tags::SUPPORT_ENCRYPTION@]]
    }
}

/// The tags that a server sends along with its first answer to a client.
pub open spec fn common_tags(
    info: Option<InfoView>,
    extra: Seq<Seq<Seq<char>>>,
    mode: EncryptionMode,
    wraps: GiftWrapMode,
) -> Seq<Seq<Seq<char>>> {
    info_tags(info) + capability_tags(mode, wraps) + extra
}

/// The view of an optional description.
pub open spec fn optional_info(info: Option<ServerInfo>) -> Option<InfoView> {
    match info {
        Some(i) => Some(i@),
        None => None,
    }
}

/// The view of an optional description that is borrowed.
pub open spec fn borrowed_info(info: Option<&ServerInfo>) -> Option<InfoView> {
    match info {
        Some(i) => Some(i@),
        None => None,
    }
}

/// Adds the tag of that name, where there is a value for it.
fn push_optional_tag(tags: &mut Vec<Tag>, name: &str, value: &Option<String>)
    ensures
        tags_view(final(tags)@) == tags_view(old(tags)@) + optional_tag(
            name@,
            crate::util::text::optional_text(*value),
        ),
{
    match value {
        Some(text) => {
            push_tag(tags, Tag::custom(name, text.as_str()));
            proof {
                assert(tags_view(tags@) =~= tags_view(old(tags)@) + optional_tag(
                    name@,
                    Some(text@),
                ));
            }
        },
        None => {
            proof {
                assert(tags_view(tags@) =~= tags_view(old(tags)@) + optional_tag(name@, None));
            }
        },
    }
}

/// The tags that describe a server.
pub fn server_info_tags(server_info: Option<&ServerInfo>) -> (created: Vec<Tag>)
    ensures
        tags_view(created@) == info_tags(borrowed_info(server_info)),
{
    let mut created: Vec<Tag> = Vec::new();
    proof {
        assert(tags_view(created@) =~= Seq::empty());
    }
    match server_info {
        Some(info) => {
            push_optional_tag(&mut created, tags::NAME, &info.name);
            push_optional_tag(&mut created, tags::ABOUT, &info.about);
            push_optional_tag(&mut created, tags::WEBSITE, &info.website);
            push_optional_tag(&mut created, tags::PICTURE, &info.picture);
            proof {
                assert(tags_view(created@) =~= info_tags(Some(info@)));
            }
        },
        None => {},
    }
    created
}

/// Adds the tags that say what a server supports.
pub fn append_transport_capability_tags(
    tags: &mut Vec<Tag>,
    encryption_mode: EncryptionMode,
    gift_wrap_mode: GiftWrapMode,
)
    ensures
        tags_view(final(tags)@) == tags_view(old(tags)@) + capability_tags(
            encryption_mode,
            gift_wrap_mode,
        ),
{
    if encryption_mode == EncryptionMode::Disabled {
        proof {
            assert(tags_view(tags@) =~= tags_view(old(tags)@) + Seq::empty());
        }
        return;
    }
    push_tag(tags, Tag::flag(tags::SUPPORT_ENCRYPTION));
    if gift_wrap_mode.supports_ephemeral() {
        push_tag(tags, Tag::flag(tags::SUPPORT_ENCRYPTION_EPHEMERAL));
    }
    proof {
        assert(tags_view(tags@) =~= tags_view(old(tags)@) + capability_tags(
            encryption_mode,
            gift_wrap_mode,
        ));
    }
}

/// Adds the tags that a server sends along with its first answer to a client.
pub fn append_common_response_tags(
    tags: &mut Vec<Tag>,
    server_info: Option<&ServerInfo>,
    extra_common_tags: &[Tag],
    encryption_mode: EncryptionMode,
    gift_wrap_mode: GiftWrapMode,
)
    ensures
        tags_view(final(tags)@) == tags_view(old(tags)@) + common_tags(
            borrowed_info(server_info),
            tags_view(extra_common_tags@),
            encryption_mode,
            gift_wrap_mode,
        ),
{
    let described = server_info_tags(server_info);
    extend_tags(tags, described.as_slice());
    append_transport_capability_tags(tags, encryption_mode, gift_wrap_mode);
    extend_tags(tags, extra_common_tags);
    proof {
        assert(tags_view(tags@) =~= tags_view(old(tags)@) + common_tags(
            borrowed_info(server_info),
            tags_view(extra_common_tags@),
            encryption_mode,
            gift_wrap_mode,
        ));
    }
}

/// The error code of a request that a client may not make.
pub const UNAUTHORIZED_CODE: i64 = -32000;

/// The answer to a request that a client may not make.
pub open spec fn unauthorized_view(request_id: JsonView) -> MessageView {
    MessageView::ErrorResponse(
        ErrorResponseView {
            jsonrpc: JSONRPC_VERSION@,
            id: request_id,
            error: ErrorView { code: UNAUTHORIZED_CODE, message: "Unauthorized"@, data: None },
        },
    )
}

/// The answer to a request that a client may not make.
pub fn unauthorized_error_response(request_id: &Json) -> (message: JsonRpcMessage)
    ensures
        message@ == unauthorized_view(request_id@),
{
    JsonRpcMessage::ErrorResponse(
        JsonRpcErrorResponse {
            jsonrpc: JSONRPC_VERSION.to_owned(),
            id: request_id.clone(),
            error: JsonRpcError {
                code: UNAUTHORIZED_CODE,
                message: "Unauthorized".to_owned(),
                data: None,
            },
        },
    )
}

/// Whether a message is a list of capabilities.
pub open spec fn is_capability_list(message: MessageView) -> bool {
    message matches MessageView::Response(response) && (member(response.result, "tools"@) is Some
        || member(response.result, "resources"@) is Some || member(
        response.result,
        "resourceTemplates"@,
    ) is Some || member(response.result, "prompts"@) is Some)
}

/// Whether a message is a list of capabilities.
pub fn is_capability_list_response(message: &JsonRpcMessage) -> (answer: bool)
    ensures
        answer == is_capability_list(message@),
{
    match message {
        JsonRpcMessage::Response(response) => {
            let result = &response.result;
            result.get("tools").is_some() || result.get("resources").is_some() || result.get(
                "resourceTemplates",
            ).is_some() || result.get("prompts").is_some()
        },
        _ => false,
    }
}

/// The gift wrap that an answer is sent in.
pub open spec fn response_wrap(mode: GiftWrapMode, encrypted: bool, mirrored: Option<u16>) -> Option<
    u16,
> {
    if !encrypted {
        None
    } else {
        match mode {
            GiftWrapMode::Persistent => Some(GIFT_WRAP_KIND),
            GiftWrapMode::Ephemeral => Some(EPHEMERAL_GIFT_WRAP_KIND),
            GiftWrapMode::Optional => if mirrored == Some(EPHEMERAL_GIFT_WRAP_KIND) {
                Some(EPHEMERAL_GIFT_WRAP_KIND)
            } else {
                Some(GIFT_WRAP_KIND)
            },
        }
    }
}

/// Select the outbound gift-wrap kind for a correlated response.
pub fn select_outbound_gift_wrap_kind(
    gift_wrap_mode: GiftWrapMode,
    is_encrypted: bool,
    mirrored_kind: Option<u16>,
) -> (kind: Option<u16>)
    ensures
        kind == response_wrap(gift_wrap_mode, is_encrypted, mirrored_kind),
{
    if !is_encrypted {
        return None;
    }
    match gift_wrap_mode {
        GiftWrapMode::Persistent => Some(GIFT_WRAP_KIND),
        GiftWrapMode::Ephemeral => Some(EPHEMERAL_GIFT_WRAP_KIND),
        GiftWrapMode::Optional => match mirrored_kind {
            Some(kind) => if kind == EPHEMERAL_GIFT_WRAP_KIND {
                Some(EPHEMERAL_GIFT_WRAP_KIND)
            } else {
                Some(GIFT_WRAP_KIND)
            },
            None => Some(GIFT_WRAP_KIND),
        },
    }
}

/// An encrypted answer is sent in a gift wrap that the mode accepts; where both
/// kinds are accepted it mirrors the kind of its request.
pub proof fn law_response_wrap_mirrors(mode: GiftWrapMode, encrypted: bool, mirrored: Option<u16>)
    ensures
        response_wrap(mode, encrypted, mirrored) is Some <==> encrypted,
        encrypted ==> mode.accepts(response_wrap(mode, encrypted, mirrored)->0),
        encrypted && mirrored is Some && mode.accepts(mirrored->0) ==> response_wrap(
            mode,
            encrypted,
            mirrored,
        ) == mirrored,
{
}

/// A server's description, as it is written.
pub open spec fn info_layout(info: InfoView) -> Layout {
    Layout::Object(
        optional_text_member(
            optional_text_member(
                optional_text_member(
                    optional_text_member(
                        optional_text_member(Seq::empty(), "name"@, info.name),
                        "version"@,
                        info.version,
                    ),
                    "picture"@,
                    info.picture,
                ),
                "website"@,
                info.website,
            ),
            "about"@,
            info.about,
        ),
    )
}

/// The members with one more text, where there is one.
pub open spec fn optional_text_member(
    members: Seq<(Seq<char>, Layout)>,
    name: Seq<char>,
    text: Option<Seq<char>>,
) -> Seq<(Seq<char>, Layout)> {
    match text {
        Some(t) => members.push((name, text_leaf(t))),
        None => members,
    }
}

/// Adds a text as a member, where there is one.
fn write_optional_text(object: ObjectText, name: &str, text: &Option<String>) -> (longer: ObjectText)
    ensures
        longer.members() == optional_text_member(
            object.members(),
            name@,
            crate::util::text::optional_text(*text),
        ),
{
    match text {
        Some(t) => object.value(name, &Json::String(t.clone())),
        None => object,
    }
}

/// Writes a server's description as text.
pub fn write_info(info: &ServerInfo) -> (text: String)
    ensures
        text@ == layout_text(info_layout(info@)),
{
    let object = write_optional_text(ObjectText::new(), "name", &info.name);
    let object = write_optional_text(object, "version", &info.version);
    let object = write_optional_text(object, "picture", &info.picture);
    let object = write_optional_text(object, "website", &info.website);
    let object = write_optional_text(object, "about", &info.about);
    object.finish()
}

/// A server's announcement.
pub open spec fn announcement(
    info: InfoView,
    mode: EncryptionMode,
    wraps: GiftWrapMode,
    extra: Seq<Seq<Seq<char>>>,
    pricing: Seq<Seq<Seq<char>>>,
) -> TemplateView {
    TemplateView {
        kind: SERVER_ANNOUNCEMENT_KIND,
        content: layout_text(info_layout(info)),
        tags: common_tags(Some(info), extra, mode, wraps) + pricing,
    }
}

/// Prepares a server's announcement.
pub fn announce(
    server_info: Option<&ServerInfo>,
    encryption_mode: EncryptionMode,
    gift_wrap_mode: GiftWrapMode,
    extra_common_tags: &[Tag],
    pricing_tags: &[Tag],
) -> (template: Result<EventTemplate, Error>)
    ensures
        match server_info {
            Some(info) => template is Ok && template->Ok_0@ == announcement(
                info@,
                encryption_mode,
                gift_wrap_mode,
                tags_view(extra_common_tags@),
                tags_view(pricing_tags@),
            ),
            None => is_other(template, "No server info configured"@),
        },
{
    match server_info {
        Some(info) => {
            let content = write_info(info);
            let mut created: Vec<Tag> = Vec::new();
            append_common_response_tags(
                &mut created,
                server_info,
                extra_common_tags,
                encryption_mode,
                gift_wrap_mode,
            );
            extend_tags(&mut created, pricing_tags);
            proof {
                assert(tags_view(created@) =~= common_tags(
                    Some(info@),
                    tags_view(extra_common_tags@),
                    encryption_mode,
                    gift_wrap_mode,
                ) + tags_view(pricing_tags@));
            }
            Ok(EventTemplate { kind: SERVER_ANNOUNCEMENT_KIND, content, tags: created })
        },
        None => Err(Error::Other("No server info configured".to_owned())),
    }
}

/// An object with one member, a list.
pub open spec fn list_view(name: Seq<char>, items: Seq<JsonView>) -> JsonView {
    JsonView::Object(Map::empty().insert(name, JsonView::Array(items)))
}

/// A published list of capabilities.
pub open spec fn list_template(
    kind: u16,
    name: Seq<char>,
    items: Seq<JsonView>,
    pricing: Seq<Seq<Seq<char>>>,
) -> TemplateView {
    TemplateView { kind, content: json_text(list_view(name, items)), tags: pricing }
}

/// Prepares a list of capabilities for publication.
fn publish_list(kind: u16, name: &str, items: Vec<Json>, pricing_tags: &[Tag]) -> (template:
    EventTemplate)
    ensures
        template@ == list_template(kind, name@, items_view(items@), tags_view(pricing_tags@)),
{
    let mut members: Vec<(String, Json)> = Vec::new();
    let list = Json::Array(items);
    assert(list@ == JsonView::Array(items_view(items@)));
    members.push((name.to_owned(), list));
    proof {
        assert(members@.drop_last() =~= Seq::empty());
        assert(members_view(members@.drop_last()) == Map::<Seq<char>, JsonView>::empty());
    }
    let content = to_text(&Json::Object(members));
    EventTemplate { kind, content, tags: clone_tags(pricing_tags) }
}

/// Prepares the tools list.
pub fn publish_tools(tools: Vec<Json>, pricing_tags: &[Tag]) -> (template: EventTemplate)
    ensures
        template@ == list_template(
            TOOLS_LIST_KIND,
            "tools"@,
            items_view(tools@),
            tags_view(pricing_tags@),
        ),
{
    publish_list(TOOLS_LIST_KIND, "tools", tools, pricing_tags)
}

/// Prepares the resources list.
pub fn publish_resources(resources: Vec<Json>, pricing_tags: &[Tag]) -> (template: EventTemplate)
    ensures
        template@ == list_template(
            RESOURCES_LIST_KIND,
            "resources"@,
            items_view(resources@),
            tags_view(pricing_tags@),
        ),
{
    publish_list(RESOURCES_LIST_KIND, "resources", resources, pricing_tags)
}

/// Prepares the prompts list.
pub fn publish_prompts(prompts: Vec<Json>, pricing_tags: &[Tag]) -> (template: EventTemplate)
    ensures
        template@ == list_template(
            PROMPTS_LIST_KIND,
            "prompts"@,
            items_view(prompts@),
            tags_view(pricing_tags@),
        ),
{
    publish_list(PROMPTS_LIST_KIND, "prompts", prompts, pricing_tags)
}

/// Prepares the resource templates list.
pub fn publish_resource_templates(templates: Vec<Json>, pricing_tags: &[Tag]) -> (template:
    EventTemplate)
    ensures
        template@ == list_template(
            RESOURCETEMPLATES_LIST_KIND,
            "resourceTemplates"@,
            items_view(templates@),
            tags_view(pricing_tags@),
        ),
{
    publish_list(RESOURCETEMPLATES_LIST_KIND, "resourceTemplates", templates, pricing_tags)
}

/// The request to delete the announcements of one kind.
pub open spec fn kind_deletion(reason: Seq<char>, kind: u16) -> TemplateView {
    TemplateView {
        kind: DELETION_KIND,
        content: reason,
        tags: seq![seq![tags::KIND@, decimal_text(kind as nat)]],
    }
}

/// Prepares one deletion request for each announcement kind.
pub fn delete_announced_kinds(reason: &str) -> (templates: Vec<EventTemplate>)
    ensures
        templates@.len() == UNENCRYPTED_KINDS@.len(),
        forall|i: int|
            0 <= i < templates@.len() ==> (#[trigger] templates@[i])@ == kind_deletion(
                reason@,
                UNENCRYPTED_KINDS@[i],
            ),
{
    let mut templates: Vec<EventTemplate> = Vec::new();
    let mut i: usize = 0;
    while i < 5
        invariant
            i <= 5,
            templates@.len() == i,
            forall|j: int|
                0 <= j < i ==> (#[trigger] templates@[j])@ == kind_deletion(
                    reason@,
                    UNENCRYPTED_KINDS@[j],
                ),
        decreases 5 - i,
    {
        let kind: u16 = UNENCRYPTED_KINDS[i];
        let mut created: Vec<Tag> = Vec::new();
        push_tag(&mut created, Tag::custom(tags::KIND, decimal(kind as u64).as_str()));
        proof {
            assert(tags_view(created@) =~= seq![seq![tags::KIND@, decimal_text(kind as nat)]]);
        }
        templates.push(
            EventTemplate { kind: DELETION_KIND, content: reason.to_owned(), tags: created },
        );
        i = i + 1;
    }
    templates
}

/// The tags that refer to events.
pub open spec fn event_tags(ids: Seq<EventId>) -> Seq<Seq<Seq<char>>> {
    ids.map_values(|id: EventId| seq![tags::EVENT_ID@, id@])
}

/// Prepares the request to delete these events; `None` where there are none.
pub fn delete_events(reason: &str, ids: &[EventId]) -> (template: Option<EventTemplate>)
    ensures
        match template {
            Some(t) => ids@.len() > 0 && t@ == (TemplateView {
                kind: DELETION_KIND,
                content: reason@,
                tags: event_tags(ids@),
            }),
            None => ids@.len() == 0,
        },
{
    if ids.len() == 0 {
        return None;
    }
    let mut created: Vec<Tag> = Vec::new();
    let mut i: usize = 0;
    while i < ids.len()
        invariant
            i <= ids@.len(),
            tags_view(created@) =~= event_tags(ids@.take(i as int)),
        decreases ids@.len() - i,
    {
        push_tag(&mut created, Tag::event(&ids[i]));
        proof {
            assert(ids@.take(i + 1) =~= ids@.take(i as int).push(ids@[i as int]));
        }
        i = i + 1;
    }
    proof {
        assert(ids@.take(i as int) =~= ids@);
    }
    Some(EventTemplate { kind: DELETION_KIND, content: reason.to_owned(), tags: created })
}

} // verus!
