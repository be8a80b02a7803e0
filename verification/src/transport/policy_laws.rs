//! What a server's rules come to: who may call what, and what clients are told.

use crate::protocol::error::Error;
use crate::protocol::json::{
    items_view, json_text, layout_fits, layout_members, layout_text, layout_value, lemma_items_view,
    Json, JsonView, Layout,
};
use crate::protocol::nostr::{tags_view, EventId, EventTemplate, Tag};
use crate::protocol::types::{
    CapabilityExclusion, EncryptionMode, GiftWrapMode, JsonRpcMessage, ServerInfo,
};
use crate::transport::policy;
use crate::util::text::decimal_text;
use vstd::prelude::*;

verus! {

/// Whether the tags tell all that a server says of itself: each of its name, its
/// description, its website and its picture that it gives.
pub open spec fn tells_description(tags: Seq<Seq<Seq<char>>>, info: ServerInfo) -> bool {
    &&& info.name matches Some(text) ==> tags.contains(seq!["name"@, text@])
    &&& info.about matches Some(text) ==> tags.contains(seq!["about"@, text@])
    &&& info.website matches Some(text) ==> tags.contains(seq!["website"@, text@])
    &&& info.picture matches Some(text) ==> tags.contains(seq!["picture"@, text@])
}

/// Whether a tag tells something that a server says of itself.
pub open spec fn is_description(tag: Seq<Seq<char>>, info: ServerInfo) -> bool {
    ||| info.name matches Some(text) && tag == seq!["name"@, text@]
    ||| info.about matches Some(text) && tag == seq!["about"@, text@]
    ||| info.website matches Some(text) && tag == seq!["website"@, text@]
    ||| info.picture matches Some(text) && tag == seq!["picture"@, text@]
}

/// How many of its name, its description, its website and its picture a server
/// gives.
pub open spec fn description_number(info: ServerInfo) -> int {
    (if info.name is Some { 1int } else { 0 }) + (if info.about is Some { 1int } else { 0 }) + (
    if info.website is Some { 1int } else { 0 }) + (if info.picture is Some { 1int } else { 0 })
}

/// Whether the tags tell what a server supports: encryption, where it is not
/// disabled, and ephemeral gift wraps, where they are used too.
pub open spec fn tells_capabilities(
    tags: Seq<Seq<Seq<char>>>,
    mode: EncryptionMode,
    wraps: GiftWrapMode,
) -> bool {
    &&& mode != EncryptionMode::Disabled ==> tags.contains(seq!["support_encryption"@])
    &&& mode != EncryptionMode::Disabled && wraps != GiftWrapMode::Persistent ==> tags.contains(
        seq!["support_encryption_ephemeral"@],
    )
}

/// Whether a tag tells something that a server supports.
pub open spec fn is_capability(
    tag: Seq<Seq<char>>,
    mode: EncryptionMode,
    wraps: GiftWrapMode,
) -> bool {
    ||| mode != EncryptionMode::Disabled && tag == seq!["support_encryption"@]
    ||| mode != EncryptionMode::Disabled && wraps != GiftWrapMode::Persistent && tag == seq![
        "support_encryption_ephemeral"@,
    ]
}

/// How many tags tell what a server supports.
pub open spec fn capability_number(mode: EncryptionMode, wraps: GiftWrapMode) -> int {
    if mode == EncryptionMode::Disabled {
        0
    } else if wraps == GiftWrapMode::Persistent {
        1
    } else {
        2
    }
}

/// The place of a tag of the description among the others, by its name.
pub open spec fn description_place(tag: Seq<Seq<char>>) -> int {
    if tag[0] == "name"@ {
        1
    } else if tag[0] == "about"@ {
        2
    } else if tag[0] == "website"@ {
        3
    } else {
        4
    }
}

/// Whether the first tags are those of the description: the name, the description,
/// the website and the picture, in this order, as far as they are given.
pub open spec fn starts_with_description(tags: Seq<Seq<Seq<char>>>, info: ServerInfo) -> bool {
    let number = description_number(info);
    &&& number <= tags.len()
    &&& forall|i: int| 0 <= i < number ==> is_description(#[trigger] tags[i], info)
    &&& forall|i: int, j: int|
        0 <= i < j < number ==> description_place(#[trigger] tags[i]) < description_place(
            #[trigger] tags[j],
        )
}

/// Whether the tags are those that a client is told a server's ways by: its
/// description, its capabilities and the extra tags, each once, and no other.
pub open spec fn tells_server(
    tags: Seq<Seq<Seq<char>>>,
    info: Option<ServerInfo>,
    mode: EncryptionMode,
    wraps: GiftWrapMode,
    extra: Seq<Seq<Seq<char>>>,
) -> bool {
    &&& info matches Some(i) ==> tells_description(tags, i) && starts_with_description(tags, i)
    &&& tells_capabilities(tags, mode, wraps)
    &&& mode != EncryptionMode::Disabled ==> tags[match info {
        Some(given) => description_number(given),
        None => 0,
    }] == seq!["support_encryption"@]
    &&& forall|i: int| 0 <= i < extra.len() ==> tags.contains(#[trigger] extra[i])
    &&& extra.is_suffix_of(tags)
    &&& forall|i: int|
        0 <= i < tags.len() ==> is_capability(#[trigger] tags[i], mode, wraps) || extra.contains(
            tags[i],
        ) || (info matches Some(given) && is_description(tags[i], given))
    &&& tags.len() == capability_number(mode, wraps) + extra.len() + match info {
        Some(given) => description_number(given),
        None => 0,
    }
}

/// What is in one of two lists is in both together.
pub(crate) proof fn lemma_contains_either<T>(a: Seq<T>, b: Seq<T>, item: T)
    ensures
        (a + b).contains(item) <==> a.contains(item) || b.contains(item),
{
    if a.contains(item) {
        let i = choose|i: int| 0 <= i < a.len() && a[i] == item;
        assert((a + b)[i] == item);
    }
    if b.contains(item) {
        let i = choose|i: int| 0 <= i < b.len() && b[i] == item;
        assert((a + b)[a.len() + i] == item);
    }
    if (a + b).contains(item) {
        let i = choose|i: int| 0 <= i < (a + b).len() && (a + b)[i] == item;
        if i < a.len() {
            assert(a[i] == item);
        } else {
            assert(b[i - a.len()] == item);
        }
    }
}

/// The tag of a text that is given is there, and nothing else.
proof fn lemma_optional_tag(name: Seq<char>, value: Option<Seq<char>>, tag: Seq<Seq<char>>)
    ensures
        policy::optional_tag(name, value).contains(tag) <==> (value matches Some(text) && tag
            == seq![name, text]),
        policy::optional_tag(name, value).len() == if value is Some { 1int } else { 0 },
{
    if let Some(text) = value {
        assert(policy::optional_tag(name, value)[0] == seq![name, text]);
    }
}

/// The tags of a description hold a tag exactly where it tells something.
pub(crate) proof fn lemma_info_tags(info: ServerInfo, tag: Seq<Seq<char>>)
    ensures
        policy::info_tags(Some(info@)).contains(tag) <==> is_description(tag, info),
        policy::info_tags(Some(info@)).len() == description_number(info),
{
    let name = policy::optional_tag("name"@, info@.name);
    let about = policy::optional_tag("about"@, info@.about);
    let website = policy::optional_tag("website"@, info@.website);
    let picture = policy::optional_tag("picture"@, info@.picture);
    lemma_optional_tag("name"@, info@.name, tag);
    lemma_optional_tag("about"@, info@.about, tag);
    lemma_optional_tag("website"@, info@.website, tag);
    lemma_optional_tag("picture"@, info@.picture, tag);
    lemma_contains_either(name, about, tag);
    lemma_contains_either(name + about, website, tag);
    lemma_contains_either(name + about + website, picture, tag);
}

/// The tags of a description stand in their order.
pub(crate) proof fn lemma_description_order(info: ServerInfo, rest: Seq<Seq<Seq<char>>>)
    ensures
        starts_with_description(policy::info_tags(Some(info@)) + rest, info),
{
    reveal_strlit("name");
    reveal_strlit("about");
    reveal_strlit("website");
    reveal_strlit("picture");
    assert("name"@.len() == 4 && "about"@.len() == 5);
    assert("website"@[0] == 'w' && "picture"@[0] == 'p');
    assert("website"@.len() == 7 && "picture"@.len() == 7);
    let tags = policy::info_tags(Some(info@));
    lemma_info_tags(info, Seq::empty());
    assert forall|i: int| 0 <= i < tags.len() implies is_description(
        #[trigger] (tags + rest)[i],
        info,
    ) by {
        lemma_info_tags(info, tags[i]);
        assert(tags.contains(tags[i]));
    }
}

/// The tags of what is supported hold a tag exactly where it tells that.
pub(crate) proof fn lemma_capability_tags(
    mode: EncryptionMode,
    wraps: GiftWrapMode,
    tag: Seq<Seq<char>>,
)
    ensures
        policy::capability_tags(mode, wraps).contains(tag) <==> is_capability(tag, mode, wraps),
        policy::capability_tags(mode, wraps).len() == capability_number(mode, wraps),
{
    let tags = policy::capability_tags(mode, wraps);
    if mode != EncryptionMode::Disabled {
        assert(tags[0] == seq!["support_encryption"@]);
        if wraps != GiftWrapMode::Persistent {
            assert(tags[1] == seq!["support_encryption_ephemeral"@]);
        }
    }
}

/// The common tags tell a server's ways.
pub(crate) proof fn lemma_common_tags(
    info: Option<ServerInfo>,
    extra: Seq<Seq<Seq<char>>>,
    mode: EncryptionMode,
    wraps: GiftWrapMode,
)
    ensures
        tells_server(
            policy::common_tags(policy::optional_info(info), extra, mode, wraps),
            info,
            mode,
            wraps,
            extra,
        ),
{
    let described = policy::info_tags(policy::optional_info(info));
    let capable = policy::capability_tags(mode, wraps);
    let all = policy::common_tags(policy::optional_info(info), extra, mode, wraps);
    assert forall|tag: Seq<Seq<char>>| #[trigger]
        all.contains(tag) <==> is_capability(tag, mode, wraps) || extra.contains(tag) || (
        info matches Some(given) && is_description(tag, given)) by {
        lemma_contains_either(described, capable, tag);
        lemma_contains_either(described + capable, extra, tag);
        lemma_capability_tags(mode, wraps, tag);
        if let Some(given) = info {
            lemma_info_tags(given, tag);
        }
    }
    lemma_capability_tags(mode, wraps, Seq::empty());
    if let Some(given) = info {
        lemma_info_tags(given, Seq::empty());
        lemma_description_order(given, capable + extra);
        assert(all =~= described + (capable + extra));
        if let Some(text) = given.name {
            assert(all.contains(seq!["name"@, text@]));
        }
        if let Some(text) = given.about {
            assert(all.contains(seq!["about"@, text@]));
        }
        if let Some(text) = given.website {
            assert(all.contains(seq!["website"@, text@]));
        }
        if let Some(text) = given.picture {
            assert(all.contains(seq!["picture"@, text@]));
        }
    }
    assert(mode != EncryptionMode::Disabled ==> all.contains(seq!["support_encryption"@]));
    assert(mode != EncryptionMode::Disabled && wraps != GiftWrapMode::Persistent ==> all.contains(
        seq!["support_encryption_ephemeral"@],
    ));
    assert(all.skip(all.len() - extra.len()) =~= extra);
    assert forall|i: int| 0 <= i < extra.len() implies all.contains(#[trigger] extra[i]) by {
        assert(extra.contains(extra[i]));
    }
    assert forall|i: int| 0 <= i < all.len() implies is_capability(#[trigger] all[i], mode, wraps)
        || extra.contains(all[i]) || (info matches Some(given) && is_description(all[i], given)) by {
        assert(all.contains(all[i]));
    }
}

/// The description of a server is told by one tag for each of its name, its
/// description, its website and its picture that it gives, and by no other.
pub proof fn law_description_told(info: &ServerInfo, created: Vec<Tag>)
    requires
        call_ensures(policy::server_info_tags, (Some(info),), created),
    ensures
        tells_description(tags_view(created@), *info),
        starts_with_description(tags_view(created@), *info),
        forall|i: int|
            0 <= i < created@.len() ==> is_description((#[trigger] created@[i])@, *info),
        created@.len() == description_number(*info),
{
    let tags = tags_view(created@);
    assert forall|tag: Seq<Seq<char>>| #[trigger] tags.contains(tag) <==> is_description(
        tag,
        *info,
    ) by {
        lemma_info_tags(*info, tag);
    }
    lemma_info_tags(*info, Seq::empty());
    lemma_description_order(*info, Seq::empty());
    assert(tags + Seq::empty() =~= tags);
    if let Some(text) = info.name {
        assert(tags.contains(seq!["name"@, text@]));
    }
    if let Some(text) = info.about {
        assert(tags.contains(seq!["about"@, text@]));
    }
    if let Some(text) = info.website {
        assert(tags.contains(seq!["website"@, text@]));
    }
    if let Some(text) = info.picture {
        assert(tags.contains(seq!["picture"@, text@]));
    }
    assert forall|i: int| 0 <= i < created@.len() implies is_description(
        (#[trigger] created@[i])@,
        *info,
    ) by {
        assert(tags[i] == created@[i]@);
        assert(tags.contains(tags[i]));
    }
}

/// A server that gives no description tells none.
pub proof fn law_no_description_told(created: Vec<Tag>)
    requires
        call_ensures(policy::server_info_tags, (None::<&ServerInfo>,), created),
    ensures
        created@.len() == 0,
{
    assert(tags_view(created@).len() == 0);
}

/// What a server supports is added to the tags behind those that are there:
/// encryption, unless it is disabled, and ephemeral gift wraps, unless only the
/// others are used.
pub proof fn law_capabilities_told(tags: &mut Vec<Tag>, mode: EncryptionMode, wraps: GiftWrapMode)
    requires
        call_ensures(policy::append_transport_capability_tags, (tags, mode, wraps), ()),
    ensures
        ({
            let before = tags_view(old(tags)@);
            let after = tags_view(final(tags)@);
            let added = after.skip(before.len() as int);
            &&& before.is_prefix_of(after)
            &&& added.len() == capability_number(mode, wraps)
            &&& tells_capabilities(added, mode, wraps)
            &&& forall|i: int|
                0 <= i < added.len() ==> is_capability(#[trigger] added[i], mode, wraps)
        }),
{
    let before = tags_view(old(tags)@);
    let after = tags_view(final(tags)@);
    let added = after.skip(before.len() as int);
    assert(added =~= policy::capability_tags(mode, wraps));
    assert(after.take(before.len() as int) =~= before);
    assert forall|tag: Seq<Seq<char>>| #[trigger] added.contains(tag) <==> is_capability(
        tag,
        mode,
        wraps,
    ) by {
        lemma_capability_tags(mode, wraps, tag);
    }
    lemma_capability_tags(mode, wraps, Seq::empty());
    assert forall|i: int| 0 <= i < added.len() implies is_capability(
        #[trigger] added[i],
        mode,
        wraps,
    ) by {
        assert(added.contains(added[i]));
    }
    assert(mode != EncryptionMode::Disabled ==> added.contains(seq!["support_encryption"@]));
    assert(mode != EncryptionMode::Disabled && wraps != GiftWrapMode::Persistent ==> added.contains(
        seq!["support_encryption_ephemeral"@],
    ));
}

/// With the common tags a server tells its ways, behind the tags that are there.
pub proof fn law_common_tags_tell_server(
    tags: &mut Vec<Tag>,
    info: &ServerInfo,
    extra: &[Tag],
    mode: EncryptionMode,
    wraps: GiftWrapMode,
)
    requires
        call_ensures(
            policy::append_common_response_tags,
            (tags, Some(info), extra, mode, wraps),
            (),
        ),
    ensures
        ({
            let before = tags_view(old(tags)@);
            let after = tags_view(final(tags)@);
            &&& before.is_prefix_of(after)
            &&& tells_server(
                after.skip(before.len() as int),
                Some(*info),
                mode,
                wraps,
                tags_view(extra@),
            )
        }),
{
    let before = tags_view(old(tags)@);
    let after = tags_view(final(tags)@);
    lemma_common_tags(Some(*info), tags_view(extra@), mode, wraps);
    assert(after.skip(before.len() as int) =~= policy::common_tags(
        Some(info@),
        tags_view(extra@),
        mode,
        wraps,
    ));
    assert(after.take(before.len() as int) =~= before);
}

/// Whether a value is an object that holds all that a server says of itself, each
/// text under the name of its field, and nothing else.
pub open spec fn holds_description(value: JsonView, info: ServerInfo) -> bool {
    &&& value matches JsonView::Object(members)
    &&& info.name matches Some(text) ==> members.contains_key("name"@) && members["name"@]
        == JsonView::Str(text@)
    &&& info.version matches Some(text) ==> members.contains_key("version"@) && members["version"@]
        == JsonView::Str(text@)
    &&& info.picture matches Some(text) ==> members.contains_key("picture"@) && members["picture"@]
        == JsonView::Str(text@)
    &&& info.website matches Some(text) ==> members.contains_key("website"@) && members["website"@]
        == JsonView::Str(text@)
    &&& info.about matches Some(text) ==> members.contains_key("about"@) && members["about"@]
        == JsonView::Str(text@)
    &&& forall|name: Seq<char>| #[trigger]
        members.contains_key(name) ==> {
            ||| name == "name"@ && info.name is Some
            ||| name == "version"@ && info.version is Some
            ||| name == "picture"@ && info.picture is Some
            ||| name == "website"@ && info.website is Some
            ||| name == "about"@ && info.about is Some
        }
}

/// The names of what a server says of itself are different.
proof fn lemma_field_names()
    ensures
        "name"@ != "version"@,
        "name"@ != "picture"@,
        "name"@ != "website"@,
        "name"@ != "about"@,
        "version"@ != "picture"@,
        "version"@ != "website"@,
        "version"@ != "about"@,
        "picture"@ != "website"@,
        "picture"@ != "about"@,
        "website"@ != "about"@,
{
    reveal_strlit("name");
    reveal_strlit("version");
    reveal_strlit("picture");
    reveal_strlit("website");
    reveal_strlit("about");
    assert("name"@.len() == 4 && "about"@.len() == 5);
    assert("version"@.len() == 7 && "picture"@.len() == 7 && "website"@.len() == 7);
    assert("version"@[0] == 'v' && "picture"@[0] == 'p' && "website"@[0] == 'w');
}

/// The members with one more text are those before and that.
proof fn lemma_optional_member(
    members: Seq<(Seq<char>, Layout)>,
    name: Seq<char>,
    text: Option<Seq<char>>,
)
    requires
        forall|i: int| 0 <= i < members.len() ==> (#[trigger] members[i]).1 is Leaf,
        forall|i: int|
            0 <= i < members.len() ==> layout_value((#[trigger] members[i]).1) is Str,
    ensures
        ({
            let longer = policy::optional_text_member(members, name, text);
            &&& layout_members(longer) == match text {
                Some(t) => layout_members(members).insert(name, JsonView::Str(t)),
                None => layout_members(members),
            }
            &&& forall|i: int| 0 <= i < longer.len() ==> (#[trigger] longer[i]).1 is Leaf
            &&& forall|i: int|
                0 <= i < longer.len() ==> layout_value((#[trigger] longer[i]).1) is Str
        }),
{
    let longer = policy::optional_text_member(members, name, text);
    if let Some(t) = text {
        assert(longer.drop_last() =~= members);
        assert(longer.last() == (name, Layout::Leaf(JsonView::Str(t))));
        assert(layout_value(Layout::Leaf(JsonView::Str(t))) == JsonView::Str(t));
        assert forall|i: int| 0 <= i < longer.len() implies (#[trigger] longer[i]).1 is Leaf
            && layout_value(longer[i].1) is Str by {
            if i < members.len() {
                assert(longer[i] == members[i]);
            }
        }
    }
}

/// A description is written as an object that holds it.
pub(crate) proof fn lemma_info_layout(info: ServerInfo)
    ensures
        holds_description(layout_value(policy::info_layout(info@)), info),
        layout_fits(policy::info_layout(info@), 127),
{
    lemma_field_names();
    let none: Seq<(Seq<char>, Layout)> = Seq::empty();
    let one = policy::optional_text_member(none, "name"@, info@.name);
    let two = policy::optional_text_member(one, "version"@, info@.version);
    let three = policy::optional_text_member(two, "picture"@, info@.picture);
    let four = policy::optional_text_member(three, "website"@, info@.website);
    lemma_optional_member(none, "name"@, info@.name);
    lemma_optional_member(one, "version"@, info@.version);
    lemma_optional_member(two, "picture"@, info@.picture);
    lemma_optional_member(three, "website"@, info@.website);
    lemma_optional_member(four, "about"@, info@.about);
    let five = policy::optional_text_member(four, "about"@, info@.about);
    assert(policy::info_layout(info@) == Layout::Object(five));
    assert(layout_members(none) =~= Map::empty());
    assert forall|i: int| 0 <= i < five.len() implies layout_fits(
        (#[trigger] five[i]).1,
        126,
    ) by {
        assert(five[i].1 is Leaf);
        assert(layout_value(five[i].1) is Str);
    }
}

/// What a server announces is read, from the content of the announcement, as an
/// object that holds all that it says of itself and nothing else; the tags tell
/// its ways, and the pricing tags follow.
pub proof fn law_announcement_tells_server(
    info: &ServerInfo,
    mode: EncryptionMode,
    wraps: GiftWrapMode,
    extra: &[Tag],
    pricing: &[Tag],
    announced: Result<EventTemplate, Error>,
    content: &str,
    read: Option<Json>,
)
    requires
        call_ensures(policy::announce, (Some(info), mode, wraps, extra, pricing), announced),
        announced matches Ok(template) ==> content@ == template.content@,
        call_ensures(Json::from_text, (content,), read),
    ensures
        announced matches Ok(template) && {
            let tags = tags_view(template.tags@);
            let front = tags.len() - pricing@.len();
            &&& template.kind == 11316
            &&& read matches Some(value) && holds_description(value@, *info)
            &&& front >= 0
            &&& tells_server(tags.take(front), Some(*info), mode, wraps, tags_view(extra@))
            &&& tags.skip(front) == tags_view(pricing@)
        },
{
    let template = announced->Ok_0;
    lemma_info_layout(*info);
    assert(content@ == layout_text(policy::info_layout(info@)));
    lemma_common_tags(Some(*info), tags_view(extra@), mode, wraps);
    let tags = tags_view(template.tags@);
    let front = tags.len() - pricing@.len();
    assert(tags.take(front) =~= policy::common_tags(
        Some(info@),
        tags_view(extra@),
        mode,
        wraps,
    ));
    assert(tags.skip(front) =~= tags_view(pricing@));
}

/// A server that says nothing of itself announces nothing.
pub proof fn law_nothing_to_announce(
    mode: EncryptionMode,
    wraps: GiftWrapMode,
    extra: &[Tag],
    pricing: &[Tag],
    announced: Result<EventTemplate, Error>,
)
    requires
        call_ensures(
            policy::announce,
            (None::<&ServerInfo>, mode, wraps, extra, pricing),
            announced,
        ),
    ensures
        announced is Err,
{
}

/// Whether an event publishes a list: it is of that kind, its content is the text
/// of an object whose only member has that name and is the list, and its tags are
/// the pricing tags.
pub open spec fn publishes(
    template: EventTemplate,
    kind: u16,
    name: Seq<char>,
    items: Seq<Json>,
    pricing: Seq<Tag>,
) -> bool {
    &&& template.kind == kind
    &&& tags_view(template.tags@) == tags_view(pricing)
    &&& exists|list: Seq<JsonView>, members: Map<Seq<char>, JsonView>|
        {
            &&& list.len() == items.len()
            &&& forall|i: int| 0 <= i < items.len() ==> list[i] == (#[trigger] items[i])@
            &&& members.dom() == set![name]
            &&& members[name] == JsonView::Array(list)
            &&& template.content@ == #[trigger] json_text(JsonView::Object(members))
            &&& #[trigger] list.len() >= 0
        }
}

/// An event of a published list publishes it.
pub(crate) proof fn lemma_list_published(
    template: EventTemplate,
    kind: u16,
    name: Seq<char>,
    items: Seq<Json>,
    pricing: Seq<Tag>,
)
    requires
        template@ == policy::list_template(kind, name, items_view(items), tags_view(pricing)),
    ensures
        publishes(template, kind, name, items, pricing),
{
    lemma_items_view(items);
    let list = items_view(items);
    let members: Map<Seq<char>, JsonView> = Map::empty().insert(name, JsonView::Array(list));
    assert(members.dom() =~= set![name]);
    assert(template.content@ == json_text(JsonView::Object(members)));
    assert(list.len() >= 0);
}

/// Each list of capabilities is published under its own kind and its own name.
pub proof fn law_lists_published(
    items: Vec<Json>,
    pricing: &[Tag],
    tools: EventTemplate,
    resources: EventTemplate,
    templates: EventTemplate,
    prompts: EventTemplate,
)
    requires
        call_ensures(policy::publish_tools, (items, pricing), tools),
        call_ensures(policy::publish_resources, (items, pricing), resources),
        call_ensures(policy::publish_resource_templates, (items, pricing), templates),
        call_ensures(policy::publish_prompts, (items, pricing), prompts),
    ensures
        publishes(tools, 11317, "tools"@, items@, pricing@),
        publishes(resources, 11318, "resources"@, items@, pricing@),
        publishes(templates, 11319, "resourceTemplates"@, items@, pricing@),
        publishes(prompts, 11320, "prompts"@, items@, pricing@),
{
    lemma_list_published(tools, 11317, "tools"@, items@, pricing@);
    lemma_list_published(resources, 11318, "resources"@, items@, pricing@);
    lemma_list_published(templates, 11319, "resourceTemplates"@, items@, pricing@);
    lemma_list_published(prompts, 11320, "prompts"@, items@, pricing@);
}

/// The announcement kinds in decimal.
pub(crate) proof fn lemma_kinds_in_decimal()
    ensures
        decimal_text(11316) == "11316"@,
        decimal_text(11317) == "11317"@,
        decimal_text(11318) == "11318"@,
        decimal_text(11319) == "11319"@,
        decimal_text(11320) == "11320"@,
{
    reveal_strlit("11316");
    reveal_strlit("11317");
    reveal_strlit("11318");
    reveal_strlit("11319");
    reveal_strlit("11320");
    reveal_with_fuel(decimal_text, 6);
    assert(decimal_text(1131) =~= seq!['1', '1', '3', '1']);
    assert(decimal_text(1132) =~= seq!['1', '1', '3', '2']);
    assert(decimal_text(11316) =~= "11316"@);
    assert(decimal_text(11317) =~= "11317"@);
    assert(decimal_text(11318) =~= "11318"@);
    assert(decimal_text(11319) =~= "11319"@);
    assert(decimal_text(11320) =~= "11320"@);
}

/// Whether an event asks to delete, for a reason, what bears one tag.
pub open spec fn asks_deletion(
    template: EventTemplate,
    reason: Seq<char>,
    tag: Seq<Seq<char>>,
) -> bool {
    template.kind == 5 && template.content@ == reason && tags_view(template.tags@) == seq![tag]
}

/// Every kind of announcement is deleted, by one request that names it.
pub proof fn law_announced_kinds_deleted(reason: &str, templates: Vec<EventTemplate>)
    requires
        call_ensures(policy::delete_announced_kinds, (reason,), templates),
    ensures
        templates@.len() == 5,
        asks_deletion(templates@[0], reason@, seq!["k"@, "11316"@]),
        asks_deletion(templates@[1], reason@, seq!["k"@, "11317"@]),
        asks_deletion(templates@[2], reason@, seq!["k"@, "11318"@]),
        asks_deletion(templates@[3], reason@, seq!["k"@, "11319"@]),
        asks_deletion(templates@[4], reason@, seq!["k"@, "11320"@]),
{
    lemma_kinds_in_decimal();
    let kinds = crate::protocol::constants::UNENCRYPTED_KINDS@;
    assert(kinds[0] == 11316 && kinds[1] == 11317 && kinds[2] == 11318 && kinds[3] == 11319
        && kinds[4] == 11320);
    assert(templates@[0]@.kind == 5);
    assert(templates@[1]@.kind == 5);
    assert(templates@[2]@.kind == 5);
    assert(templates@[3]@.kind == 5);
    assert(templates@[4]@.kind == 5);
}

/// Events are deleted by one request that refers to each of them, in order; where
/// there are none, by none.
pub proof fn law_events_deleted(reason: &str, ids: &[EventId], template: Option<EventTemplate>)
    requires
        call_ensures(policy::delete_events, (reason, ids), template),
    ensures
        template is None <==> ids@.len() == 0,
        template matches Some(request) ==> {
            &&& request.kind == 5
            &&& request.content@ == reason@
            &&& request.tags@.len() == ids@.len()
            &&& forall|i: int|
                0 <= i < ids@.len() ==> (#[trigger] request.tags@[i])@ == seq!["e"@, ids@[i]@]
        },
{
    if let Some(request) = template {
        assert(tags_view(request.tags@).len() == ids@.len());
        assert forall|i: int| 0 <= i < ids@.len() implies (#[trigger] request.tags@[i])@ == seq![
            "e"@,
            ids@[i]@,
        ] by {
            assert(tags_view(request.tags@)[i] == request.tags@[i]@);
        }
    }
}

/// A request that a client may not make is answered with its own id and the error
/// that says so.
pub proof fn law_unauthorized_answer(request_id: &Json, answer: JsonRpcMessage)
    requires
        call_ensures(policy::unauthorized_error_response, (request_id,), answer),
    ensures
        answer matches JsonRpcMessage::ErrorResponse(response) && {
            &&& response.jsonrpc@ == "2.0"@
            &&& response.id@ == request_id@
            &&& response.error.code == -32000
            &&& response.error.message@ == "Unauthorized"@
            &&& response.error.data is None
        },
{
    assert(answer@ is ErrorResponse);
}

/// The gift wrap of an answer: none to what came in the open; the one kind that
/// is used, where only one is; otherwise the kind that the request came in, and
/// the persistent one where that is not known.
pub proof fn law_answer_wrap(
    mode: GiftWrapMode,
    is_encrypted: bool,
    mirrored: Option<u16>,
    kind: Option<u16>,
)
    requires
        call_ensures(
            policy::select_outbound_gift_wrap_kind,
            (mode, is_encrypted, mirrored),
            kind,
        ),
    ensures
        !is_encrypted ==> kind is None,
        is_encrypted && mode == GiftWrapMode::Persistent ==> kind == Some(1059u16),
        is_encrypted && mode == GiftWrapMode::Ephemeral ==> kind == Some(21059u16),
        is_encrypted && mode == GiftWrapMode::Optional && mirrored == Some(21059u16) ==> kind
            == Some(21059u16),
        is_encrypted && mode == GiftWrapMode::Optional && mirrored != Some(21059u16) ==> kind
            == Some(1059u16),
{
}

/// The method that a message calls, and nothing for an answer.
pub open spec fn called_method(message: JsonRpcMessage) -> Seq<char> {
    match message {
        JsonRpcMessage::Request(request) => request.method@,
        JsonRpcMessage::Notification(notification) => notification.method@,
        _ => ""@,
    }
}

/// Whether a request names a capability: its parameters are an object whose
/// member `name` is that text.
pub open spec fn names_capability(message: JsonRpcMessage, name: Seq<char>) -> bool {
    &&& message matches JsonRpcMessage::Request(request)
    &&& request.params matches Some(params)
    &&& params@ matches JsonView::Object(members)
    &&& members.contains_key("name"@)
    &&& members["name"@] == JsonView::Str(name)
}

/// Whether an exclusion opens a message to everybody: it is about the method, and
/// about the capability where it gives one.
pub open spec fn opens(exclusion: CapabilityExclusion, message: JsonRpcMessage) -> bool {
    &&& exclusion.method@ == called_method(message)
    &&& exclusion.name matches Some(name) ==> names_capability(message, name@)
}

/// The capability that a request names is the member `name` of its parameters.
pub proof fn law_requested_name(message: &JsonRpcMessage, name: Option<&str>)
    requires
        call_ensures(policy::name_of_request, (message,), name),
    ensures
        match name {
            Some(text) => names_capability(*message, text@),
            None => forall|text: Seq<char>| !names_capability(*message, text),
        },
{
    if let JsonRpcMessage::Request(request) = *message {
        assert(message@ == crate::protocol::types::MessageView::Request(request@));
    }
}

/// Whether a client may send a message: no keys are listed, its key is listed, the
/// message belongs to the initialization, or an exclusion opens it.
pub open spec fn may_send(
    allowed: Seq<String>,
    excluded: Seq<CapabilityExclusion>,
    sender: Seq<char>,
    message: JsonRpcMessage,
) -> bool {
    ||| allowed.len() == 0
    ||| exists|i: int| 0 <= i < allowed.len() && (#[trigger] allowed[i])@ == sender
    ||| called_method(message) == "initialize"@
    ||| called_method(message) == "notifications/initialized"@
    ||| exists|i: int| 0 <= i < excluded.len() && opens(#[trigger] excluded[i], message)
}

/// A client may send a message exactly where no keys are listed, its key is
/// listed, the message belongs to the initialization, or an exclusion opens it.
pub proof fn law_authorization(
    allowed: &Vec<String>,
    excluded: &[CapabilityExclusion],
    sender: &str,
    message: &JsonRpcMessage,
    answer: bool,
)
    requires
        call_ensures(policy::authorizes, (allowed, excluded, sender, message), answer),
    ensures
        answer == may_send(allowed@, excluded@, sender@, *message),
{
    lemma_opened(allowed@, excluded@, sender@, *message);
}

/// Whether a request calls a method with parameters whose member `name` is a text.
pub open spec fn calls_by_name(
    message: JsonRpcMessage,
    method: Seq<char>,
    name: Seq<char>,
) -> bool {
    &&& message matches JsonRpcMessage::Request(request)
    &&& request.method@ == method
    &&& request.params matches Some(params)
    &&& params@ matches JsonView::Object(members)
    &&& members.contains_key("name"@) && members["name"@] == JsonView::Str(name)
}

/// A call that an exclusion gives by its method and its name is open to every
/// sender.
pub proof fn law_excluded_call_open(
    allowed: &Vec<String>,
    excluded: &[CapabilityExclusion],
    sender: &str,
    message: &JsonRpcMessage,
    answer: bool,
    i: int,
    name: String,
)
    requires
        call_ensures(policy::authorizes, (allowed, excluded, sender, message), answer),
        0 <= i < excluded@.len(),
        excluded@[i].name == Some(name),
        calls_by_name(*message, excluded@[i].method@, name@),
    ensures
        answer,
{
    lemma_opened(allowed@, excluded@, sender@, *message);
    assert(opens(excluded@[i], *message));
}

/// A call by a name is closed to a sender that is not listed, where keys are, and
/// where every exclusion gives another method or another name.
pub proof fn law_other_call_closed(
    allowed: &Vec<String>,
    excluded: &[CapabilityExclusion],
    sender: &str,
    message: &JsonRpcMessage,
    answer: bool,
    method: Seq<char>,
    name: Seq<char>,
)
    requires
        call_ensures(policy::authorizes, (allowed, excluded, sender, message), answer),
        allowed@.len() > 0,
        forall|i: int| 0 <= i < allowed@.len() ==> (#[trigger] allowed@[i])@ != sender@,
        calls_by_name(*message, method, name),
        method != "initialize"@,
        method != "notifications/initialized"@,
        forall|i: int|
            0 <= i < excluded@.len() ==> (#[trigger] excluded@[i]).method@ != method || (
            excluded@[i].name matches Some(other) && other@ != name),
    ensures
        !answer,
{
    lemma_opened(allowed@, excluded@, sender@, *message);
    assert forall|i: int| 0 <= i < excluded@.len() implies !opens(
        #[trigger] excluded@[i],
        *message,
    ) by {}
}

/// What [`law_authorization`] says, of the rule itself.
pub(crate) proof fn lemma_opened(
    allowed: Seq<String>,
    excluded: Seq<CapabilityExclusion>,
    sender: Seq<char>,
    message: JsonRpcMessage,
)
    ensures
        policy::is_authorized(allowed, excluded, sender, message@) == may_send(
            allowed,
            excluded,
            sender,
            message,
        ),
{
    let method = called_method(message);
    let name = policy::requested_name(message@);
    assert(match message@.method() {
        Some(m) => m,
        None => ""@,
    } == method);
    assert forall|text: Seq<char>| name == Some(text) <==> #[trigger] names_capability(
        message,
        text,
    ) by {
        if let JsonRpcMessage::Request(request) = message {
            assert(message@ == crate::protocol::types::MessageView::Request(request@));
        }
    }
    assert forall|i: int| 0 <= i < excluded.len() implies opens(#[trigger] excluded[i], message)
        == policy::exclusion_matches(excluded[i]@, method, name) by {
        if let Some(wanted) = excluded[i].name {
            assert(name == Some(wanted@) <==> names_capability(message, wanted@));
        }
    }
    if exists|i: int| 0 <= i < excluded.len() && opens(#[trigger] excluded[i], message) {
        let i = choose|i: int| 0 <= i < excluded.len() && opens(#[trigger] excluded[i], message);
        assert(policy::exclusion_matches(excluded[i]@, method, name));
    }
}

/// Anybody may call the methods that open a session, and exactly what an
/// exclusion of that method names, or leaves open.
pub proof fn law_exclusion(
    excluded: &[CapabilityExclusion],
    method: &str,
    name: Option<&str>,
    answer: bool,
)
    requires
        call_ensures(policy::is_capability_excluded, (excluded, method, name), answer),
    ensures
        answer <==> {
            ||| method@ == "initialize"@
            ||| method@ == "notifications/initialized"@
            ||| exists|i: int|
                0 <= i < excluded@.len() && {
                    &&& (#[trigger] excluded@[i]).method@ == method@
                    &&& excluded@[i].name matches Some(wanted) ==> (name matches Some(given)
                        && given@ == wanted@)
                }
        },
{
    let given = crate::util::text::optional_str(name);
    assert forall|i: int| 0 <= i < excluded@.len() implies policy::exclusion_matches(
        (#[trigger] excluded@[i])@,
        method@,
        given,
    ) == (excluded@[i].method@ == method@ && (excluded@[i].name matches Some(wanted) ==> (
    name matches Some(text) && text@ == wanted@))) by {}
}

/// A list of capabilities is a response whose result is an object with a member
/// `tools`, `resources`, `resourceTemplates` or `prompts`.
pub open spec fn lists_capabilities(message: JsonRpcMessage) -> bool {
    &&& message matches JsonRpcMessage::Response(response)
    &&& response.result@ matches JsonView::Object(members)
    &&& members.contains_key("tools"@) || members.contains_key("resources"@)
        || members.contains_key("resourceTemplates"@) || members.contains_key("prompts"@)
}

/// A list of capabilities is told apart from all other messages.
pub proof fn law_capability_list(message: &JsonRpcMessage, answer: bool)
    requires
        call_ensures(policy::is_capability_list_response, (message,), answer),
    ensures
        answer == lists_capabilities(*message),
{
    if let JsonRpcMessage::Response(response) = *message {
        assert(message@ == crate::protocol::types::MessageView::Response(response@));
    }
}

} // verus!
