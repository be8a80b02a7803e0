//! What the members of an object come to, where names are repeated too.

use crate::protocol::json::{fits, json_text, layout_text, Json, JsonView, Layout};
use crate::protocol::members::{find_value_text, is_any_repeated, is_repeated, read_members};
use crate::protocol::serializers::nostr_event_to_mcp_message;
use crate::protocol::types::{JsonRpcMessage, MessageView};
use crate::protocol::wire::read_message;
use vstd::prelude::*;

verus! {

/// The text of one member: its name, a colon, its value.
pub open spec fn entry_text(entry: (Seq<char>, JsonView)) -> Seq<char> {
    json_text(JsonView::Str(entry.0)) + ":"@ + json_text(entry.1)
}

/// The texts of members, one after the other with a comma between two.
pub open spec fn entries_text(entries: Seq<(Seq<char>, JsonView)>) -> Seq<char>
    decreases entries.len(),
{
    if entries.len() == 0 {
        Seq::empty()
    } else if entries.len() == 1 {
        entry_text(entries[0])
    } else {
        entries_text(entries.drop_last()) + ","@ + entry_text(entries.last())
    }
}

/// The text of an object with these members, in this order.
pub open spec fn object_text(entries: Seq<(Seq<char>, JsonView)>) -> Seq<char> {
    "{"@ + entries_text(entries) + "}"@
}

/// Members, each with a value that is written as a whole.
spec fn laid_out(entries: Seq<(Seq<char>, JsonView)>) -> Seq<(Seq<char>, Layout)> {
    entries.map_values(|entry: (Seq<char>, JsonView)| (entry.0, Layout::Leaf(entry.1)))
}

proof fn lemma_entries_text(entries: Seq<(Seq<char>, JsonView)>)
    ensures
        crate::protocol::json::members_text(laid_out(entries)) == entries_text(entries),
    decreases entries.len(),
{
    if entries.len() > 0 {
        let last = laid_out(entries).last();
        assert(last == (entries.last().0, Layout::Leaf(entries.last().1)));
        assert(layout_text(last.1) == json_text(entries.last().1));
    }
    if entries.len() > 1 {
        lemma_entries_text(entries.drop_last());
        assert(laid_out(entries).drop_last() =~= laid_out(entries.drop_last()));
    }
}

/// Whether a text is that of an object with these members, of values that are
/// read back.
pub open spec fn is_text_of(text: Seq<char>, entries: Seq<(Seq<char>, JsonView)>) -> bool {
    &&& text == object_text(entries)
    &&& entries.len() > 0
    &&& forall|i: int| 0 <= i < entries.len() ==> fits((#[trigger] entries[i]).1, 126)
}

/// The members of a text are its members.
proof fn lemma_members_of(
    text: &str,
    entries: Seq<(Seq<char>, JsonView)>,
    read: Vec<(String, &str)>,
)
    requires
        is_text_of(text@, entries),
        call_ensures(read_members, (text,), read),
    ensures
        crate::protocol::members::members_of(text@).len() == entries.len(),
        forall|i: int|
            0 <= i < entries.len() ==> #[trigger] crate::protocol::members::members_of(text@)[i] == (
                entries[i].0,
                json_text(entries[i].1),
            ),
{
    let layout = laid_out(entries);
    lemma_entries_text(entries);
    assert(text@ == layout_text(Layout::Object(layout)));
    assert forall|i: int| 0 <= i < layout.len() implies crate::protocol::json::layout_fits(
        (#[trigger] layout[i]).1,
        126,
    ) by {
        assert(fits(entries[i].1, 126));
    }
    assert(crate::protocol::json::layout_fits(
        Layout::Object(layout),
        crate::protocol::json::MAX_DEPTH as nat,
    ));
}

/// The members of an object are read one by one from its text, in their order, each
/// with its name and the text of its value, however often a name is repeated.
pub proof fn law_members_read(
    text: &str,
    entries: Seq<(Seq<char>, JsonView)>,
    read: Vec<(String, &str)>,
)
    requires
        is_text_of(text@, entries),
        call_ensures(read_members, (text,), read),
    ensures
        read@.len() == entries.len(),
        forall|i: int|
            0 <= i < entries.len() ==> (#[trigger] read@[i]).0@ == entries[i].0 && read@[i].1@
                == json_text(entries[i].1),
{
    lemma_members_of(text, entries, read);
    let listed = crate::protocol::members::listed(read@);
    assert(listed.len() == read@.len());
    assert forall|i: int| 0 <= i < entries.len() implies (#[trigger] read@[i]).0@ == entries[i].0
        && read@[i].1@ == json_text(entries[i].1) by {
        assert(listed[i] == (read@[i].0@, read@[i].1@));
        assert(crate::protocol::members::members_of(text@)[i] == listed[i]);
    }
}

/// A name is repeated exactly where two members bear it, and one of several names
/// exactly where one of them is.
pub proof fn law_repeated_names(
    members: &Vec<(String, &str)>,
    name: &str,
    names: &[&str],
    repeated: bool,
    any: bool,
)
    requires
        call_ensures(is_repeated, (members, name), repeated),
        call_ensures(is_any_repeated, (members, names), any),
    ensures
        repeated <==> bears_twice(*members, name@),
        any <==> exists|k: int| 0 <= k < names@.len() && bears_twice(
            *members,
            (#[trigger] names@[k])@,
        ),
{
    let listed = crate::protocol::members::listed(members@);
    assert forall|given: Seq<char>| #[trigger]
        crate::protocol::members::repeats(listed, given) <==> bears_twice(*members, given) by {
        lemma_bears_twice(*members, given);
    }
    let views = crate::protocol::members::names_view(names@);
    assert(views.len() == names@.len());
    if any {
        let k = choose|k: int|
            0 <= k < views.len() && crate::protocol::members::repeats(listed, #[trigger] views[k]);
        assert(views[k] == names@[k]@);
        assert(bears_twice(*members, names@[k]@));
    }
    if exists|k: int| 0 <= k < names@.len() && bears_twice(*members, (#[trigger] names@[k])@) {
        let k = choose|k: int|
            0 <= k < names@.len() && bears_twice(*members, (#[trigger] names@[k])@);
        assert(views[k] == names@[k]@);
        assert(crate::protocol::members::repeats(listed, views[k]));
    }
}

/// Whether two members bear a name.
pub open spec fn bears_twice(members: Vec<(String, &str)>, name: Seq<char>) -> bool {
    exists|i: int, j: int|
        0 <= i < j < members@.len() && (#[trigger] members@[i]).0@ == name && (
        #[trigger] members@[j]).0@ == name
}

proof fn lemma_bears_twice(members: Vec<(String, &str)>, name: Seq<char>)
    ensures
        crate::protocol::members::repeats(
            crate::protocol::members::listed(members@),
            name,
        ) <==> bears_twice(members, name),
{
    let listed = crate::protocol::members::listed(members@);
    if crate::protocol::members::repeats(listed, name) {
        let (i, j) = choose|i: int, j: int|
            0 <= i < j < listed.len() && (#[trigger] listed[i]).0 == name && (#[trigger] listed[j]).0
                == name;
        assert(members@[i].0@ == name && members@[j].0@ == name);
    }
    if bears_twice(members, name) {
        let (i, j) = choose|i: int, j: int|
            0 <= i < j < members@.len() && (#[trigger] members@[i]).0@ == name && (
            #[trigger] members@[j]).0@ == name;
        assert(listed[i].0 == name && listed[j].0 == name);
    }
}

/// The text of a member that is asked for is that of the last of its name, and none
/// where there is none.
pub proof fn law_value_text_found(members: &Vec<(String, &str)>, name: &str, text: &str)
    requires
        call_ensures(find_value_text, (members, name), text),
    ensures
        (forall|i: int| 0 <= i < members@.len() ==> (#[trigger] members@[i]).0@ != name@)
            ==> text@.len() == 0,
        forall|i: int|
            0 <= i < members@.len() && (#[trigger] members@[i]).0@ == name@ && (forall|j: int|
                i < j < members@.len() ==> (#[trigger] members@[j]).0@ != name@) ==> text@
                == members@[i].1@,
{
    let listed = crate::protocol::members::listed(members@);
    lemma_value_text(listed, name@);
    assert forall|i: int| 0 <= i < members@.len() implies #[trigger] listed[i] == (
        members@[i].0@,
        members@[i].1@,
    ) by {}
    if forall|i: int| 0 <= i < members@.len() ==> (#[trigger] members@[i]).0@ != name@ {
        assert forall|i: int| 0 <= i < listed.len() implies (#[trigger] listed[i]).0 != name@ by {
            assert(members@[i].0@ != name@);
        }
    }
    assert forall|i: int|
        0 <= i < members@.len() && (#[trigger] members@[i]).0@ == name@ && (forall|j: int|
            i < j < members@.len() ==> (#[trigger] members@[j]).0@ != name@) implies text@
        == members@[i].1@ by {
        assert forall|j: int| i < j < listed.len() implies (#[trigger] listed[j]).0 != name@ by {
            assert(members@[j].0@ != name@);
        }
        assert(listed[i].0 == name@);
    }
}

proof fn lemma_value_text(members: Seq<(Seq<char>, Seq<char>)>, name: Seq<char>)
    ensures
        (forall|i: int| 0 <= i < members.len() ==> (#[trigger] members[i]).0 != name)
            ==> crate::protocol::members::value_text(members, name).len() == 0,
        forall|i: int|
            0 <= i < members.len() && (#[trigger] members[i]).0 == name && (forall|j: int|
                i < j < members.len() ==> (#[trigger] members[j]).0 != name)
                ==> crate::protocol::members::value_text(members, name) == members[i].1,
    decreases members.len(),
{
    if members.len() > 0 {
        let front = members.drop_last();
        lemma_value_text(front, name);
        let last = members.len() - 1;
        assert(members.last() == members[last]);
        if members[last].0 != name {
            if forall|i: int| 0 <= i < members.len() ==> (#[trigger] members[i]).0 != name {
                assert forall|i: int| 0 <= i < front.len() implies (#[trigger] front[i]).0
                    != name by {
                    assert(members[i].0 != name);
                }
            }
            assert forall|i: int|
                0 <= i < members.len() && (#[trigger] members[i]).0 == name && (forall|j: int|
                    i < j < members.len() ==> (#[trigger] members[j]).0 != name) implies
                crate::protocol::members::value_text(members, name) == members[i].1 by {
                assert(front[i] == members[i]);
                assert forall|j: int| i < j < front.len() implies (#[trigger] front[j]).0
                    != name by {
                    assert(members[j].0 != name);
                }
            }
        }
    }
}

/// A content that repeats a field of a message is no message of the kinds that have
/// the field: none at all where it repeats the version, and neither a request nor
/// an answer where it repeats the id.
pub proof fn law_repeated_field(
    content: &str,
    entries: Seq<(Seq<char>, JsonView)>,
    read: Vec<(String, &str)>,
    message: Option<JsonRpcMessage>,
    i: int,
    j: int,
)
    requires
        is_text_of(content@, entries),
        call_ensures(read_members, (content,), read),
        call_ensures(nostr_event_to_mcp_message, (content,), message),
        0 <= i < j < entries.len(),
        entries[i].0 == entries[j].0,
    ensures
        entries[i].0 == "jsonrpc"@ ==> message is None,
        entries[i].0 == "id"@ ==> message is None || message matches Some(
            JsonRpcMessage::Notification(_),
        ),
        entries[i].0 == "method"@ || entries[i].0 == "params"@ ==> !(message matches Some(
            JsonRpcMessage::Request(_),
        )) && !(message matches Some(JsonRpcMessage::Notification(_))),
        entries[i].0 == "result"@ ==> !(message matches Some(JsonRpcMessage::Response(_))),
        entries[i].0 == "error"@ ==> !(message matches Some(JsonRpcMessage::ErrorResponse(_))),
{
    lemma_members_of(content, entries, read);
    let members = crate::protocol::members::members_of(content@);
    assert(members[i].0 == members[j].0);
    assert(crate::protocol::members::repeats(members, members[i].0));
    let a = seq!["jsonrpc"@, "id"@, "method"@, "params"@];
    let b = seq!["jsonrpc"@, "id"@, "result"@];
    let c = seq!["jsonrpc"@, "id"@, "error"@];
    let d = seq!["jsonrpc"@, "method"@, "params"@];
    assert(a[0] == "jsonrpc"@ && a[1] == "id"@ && a[2] == "method"@ && a[3] == "params"@);
    assert(b[0] == "jsonrpc"@ && b[1] == "id"@ && b[2] == "result"@);
    assert(c[0] == "jsonrpc"@ && c[1] == "id"@ && c[2] == "error"@);
    assert(d[0] == "jsonrpc"@ && d[1] == "method"@ && d[2] == "params"@);
    if let Some(m) = message {
        match m {
            JsonRpcMessage::Request(r) => {
                assert(m@ == MessageView::Request(r@));
            },
            JsonRpcMessage::Response(r) => {
                assert(m@ == MessageView::Response(r@));
            },
            JsonRpcMessage::ErrorResponse(r) => {
                assert(m@ == MessageView::ErrorResponse(r@));
            },
            JsonRpcMessage::Notification(n) => {
                assert(m@ == MessageView::Notification(n@));
            },
        }
    }
}

/// A content that repeats no name and holds no error is read as the value in it is.
pub proof fn law_unrepeated_content_read(
    content: &str,
    entries: Seq<(Seq<char>, JsonView)>,
    read: Vec<(String, &str)>,
    value: Option<Json>,
    of_value: Option<JsonRpcMessage>,
    message: Option<JsonRpcMessage>,
)
    requires
        is_text_of(content@, entries),
        call_ensures(read_members, (content,), read),
        call_ensures(Json::from_text, (content,), value),
        value matches Some(v) ==> call_ensures(read_message, (&v,), of_value),
        call_ensures(nostr_event_to_mcp_message, (content,), message),
        forall|i: int, j: int|
            0 <= i < j < entries.len() ==> (#[trigger] entries[i]).0 != (#[trigger] entries[j]).0,
        of_value !is Some || !(of_value->0 is ErrorResponse),
    ensures
        value is Some,
        message is Some <==> of_value is Some,
        message matches Some(m) ==> m@ == of_value->0@,
{
    lemma_members_of(content, entries, read);
    let members = crate::protocol::members::members_of(content@);
    assert forall|name: Seq<char>| !#[trigger] crate::protocol::members::repeats(
        members,
        name,
    ) by {
        if crate::protocol::members::repeats(members, name) {
            let (i, j) = choose|i: int, j: int|
                0 <= i < j < members.len() && (#[trigger] members[i]).0 == name && (
                #[trigger] members[j]).0 == name;
            assert(entries[i].0 == entries[j].0);
        }
    }
    let layout = laid_out(entries);
    lemma_entries_text(entries);
    assert(content@ == layout_text(Layout::Object(layout)));
    assert forall|i: int| 0 <= i < layout.len() implies crate::protocol::json::layout_fits(
        (#[trigger] layout[i]).1,
        126,
    ) by {
        assert(fits(entries[i].1, 126));
    }
    assert(crate::protocol::json::layout_fits(
        Layout::Object(layout),
        crate::protocol::json::MAX_DEPTH as nat,
    ));
    if let Some(m) = of_value {
        match m {
            JsonRpcMessage::Request(r) => {
                assert(m@ == MessageView::Request(r@));
            },
            JsonRpcMessage::Response(r) => {
                assert(m@ == MessageView::Response(r@));
            },
            JsonRpcMessage::ErrorResponse(r) => {
                assert(m@ == MessageView::ErrorResponse(r@));
            },
            JsonRpcMessage::Notification(n) => {
                assert(m@ == MessageView::Notification(n@));
            },
        }
    }
}

/// The member of an object that is found under a name is the last of that name;
/// there is none where no member bears it, and none in anything but an object.
pub proof fn law_last_member_counts(value: &Json, name: &str, found: Option<&Json>)
    requires
        call_ensures(Json::get, (value, name), found),
    ensures
        match *value {
            Json::Object(entries) => match found {
                Some(member) => exists|i: int|
                    {
                        &&& 0 <= i < entries@.len()
                        &&& (#[trigger] entries@[i]).0@ == name@
                        &&& member@ == entries@[i].1@
                        &&& forall|j: int|
                            i < j < entries@.len() ==> (#[trigger] entries@[j]).0@ != name@
                    },
                None => forall|i: int|
                    0 <= i < entries@.len() ==> (#[trigger] entries@[i]).0@ != name@,
            },
            _ => found is None,
        },
{
    if let Json::Object(entries) = *value {
        lemma_last_member(entries@, name@);
    }
}

proof fn lemma_last_member(entries: Seq<(String, Json)>, name: Seq<char>)
    ensures
        ({
            let members = crate::protocol::json::members_view(entries);
            if members.contains_key(name) {
                exists|i: int|
                    {
                        &&& 0 <= i < entries.len()
                        &&& (#[trigger] entries[i]).0@ == name
                        &&& members[name] == entries[i].1@
                        &&& forall|j: int|
                            i < j < entries.len() ==> (#[trigger] entries[j]).0@ != name
                    }
            } else {
                forall|i: int| 0 <= i < entries.len() ==> (#[trigger] entries[i]).0@ != name
            }
        }),
    decreases entries.len(),
{
    if entries.len() > 0 {
        let front = entries.drop_last();
        let members = crate::protocol::json::members_view(entries);
        let last = entries.len() - 1;
        lemma_last_member(front, name);
        assert(entries.last() == entries[last]);
        if entries[last].0@ != name {
            if members.contains_key(name) {
                let before = crate::protocol::json::members_view(front);
                let i = choose|i: int|
                    {
                        &&& 0 <= i < front.len()
                        &&& (#[trigger] front[i]).0@ == name
                        &&& before[name] == front[i].1@
                        &&& forall|j: int|
                            i < j < front.len() ==> (#[trigger] front[j]).0@ != name
                    };
                assert(entries[i] == front[i]);
                assert forall|j: int| i < j < entries.len() implies (#[trigger] entries[j]).0@
                    != name by {
                    if j < last {
                        assert(front[j].0@ != name);
                    }
                }
            } else {
                assert forall|i: int| 0 <= i < entries.len() implies (#[trigger] entries[i]).0@
                    != name by {
                    if i < last {
                        assert(front[i].0@ != name);
                    }
                }
            }
        }
    }
}

/// A list is read as a message by the places of its items: three or four with a
/// version and a method as a request, three others with a version as a response,
/// two with a version and a method as a notification, and no other. What is
/// neither an object nor a list is no message.
pub proof fn law_list_read(value: &Json, message: Option<JsonRpcMessage>)
    requires
        call_ensures(read_message, (value,), message),
        value@ !is Object,
    ensures
        match value@ {
            JsonView::Array(items) => {
                let versioned = items.len() >= 2 && items[0] is Str;
                let is_request = 3 <= items.len() <= 4 && versioned && items[2] is Str;
                match message {
                    Some(JsonRpcMessage::Request(r)) => {
                        &&& is_request
                        &&& items[0] == JsonView::Str(r.jsonrpc@)
                        &&& items[1] == r.id@
                        &&& items[2] == JsonView::Str(r.method@)
                        &&& match r.params {
                            Some(params) => items.len() == 4 && items[3] == params@ && params@
                                != JsonView::Null,
                            None => items.len() == 3 || items[3] == JsonView::Null,
                        }
                    },
                    Some(JsonRpcMessage::Response(r)) => {
                        &&& items.len() == 3 && versioned && !is_request
                        &&& items[0] == JsonView::Str(r.jsonrpc@)
                        &&& items[1] == r.id@
                        &&& items[2] == r.result@
                    },
                    Some(JsonRpcMessage::Notification(n)) => {
                        &&& items.len() == 2 && versioned
                        &&& items[0] == JsonView::Str(n.jsonrpc@)
                        &&& items[1] == JsonView::Str(n.method@)
                        &&& n.params is None
                    },
                    Some(JsonRpcMessage::ErrorResponse(_)) => false,
                    None => !is_request && !(items.len() == 3 && versioned) && !(items.len() == 2
                        && versioned && items[1] is Str),
                }
            },
            _ => message is None,
        },
{
    if let Some(m) = message {
        match m {
            JsonRpcMessage::Request(r) => {
                assert(m@ == MessageView::Request(r@));
            },
            JsonRpcMessage::Response(r) => {
                assert(m@ == MessageView::Response(r@));
            },
            JsonRpcMessage::ErrorResponse(r) => {
                assert(m@ == MessageView::ErrorResponse(r@));
            },
            JsonRpcMessage::Notification(n) => {
                assert(m@ == MessageView::Notification(n@));
            },
        }
    }
}

} // verus!
