//! The members of an object as its text gives them: in their order, and each
//! time where a name is repeated.
//!
//! A value that is read as a whole holds one member of a name. Where a repeated
//! name makes a difference, the members are read one by one; each name and each
//! value is read by `serde_json`.

use crate::protocol::json::{
    fits, from_serde, layout_fits, layout_text, layout_value, member_layout_text, members_text,
    Json, JsonView, Layout, MAX_DEPTH,
};
use crate::util::text::{drop_first, drop_leading, same_text, without_leading};
use vstd::prelude::*;

verus! {

/// The value that `serde_json` reads at the start of a text, and the rest of the
/// text behind it; `None` where it finds none.
pub uninterp spec fn json_prefix(text: Seq<char>) -> Option<(JsonView, Seq<char>)>;

/// Whether a value, whatever it is, ends where a text starts: nothing follows, or
/// what stands behind a name or a value.
pub open spec fn ends_value(text: Seq<char>) -> bool {
    text.len() == 0 || text[0] == ':' || text[0] == ',' || text[0] == '}'
}

/// A value that was read at the start of a text, and the rest of the text.
pub open spec fn read_view(read: Option<(Json, &str, &str)>) -> Option<(JsonView, Seq<char>)> {
    match read {
        Some((value, _, rest)) => Some((value@, rest@)),
        None => None,
    }
}

/// Reads the value at the start of a text with the stream that
/// `serde_json::Deserializer::into_iter` makes, and splits the text behind it.
///
/// Taken on trust: that the result is a function of the text alone; that the
/// text is what was read, which is not empty, and the rest; and that a value is
/// read back where the text starts with what it was written as and the value
/// ends there. The latter leaves out numbers that are no integers and nesting
/// beyond the depth that `serde_json` reads.
#[verifier::external_body]
fn read_prefix<'a>(text: &'a str) -> (read: Option<(Json, &'a str, &'a str)>)
    ensures
        read_view(read) == json_prefix(text@),
        read matches Some((_, taken, rest)) ==> text@ == taken@ + rest@ && taken@.len() > 0,
        forall|layout: Layout, rest: Seq<char>|
            text@ == #[trigger] (layout_text(layout) + rest) && ends_value(rest) && layout_fits(
                layout,
                MAX_DEPTH as nat,
            ) ==> read_view(read) == Some((layout_value(layout), rest)),
{
    let mut values = serde_json::Deserializer::from_str(text).into_iter::<serde_json::Value>();
    let value = values.next()?.ok()?;
    let (taken, rest) = text.split_at(values.byte_offset());
    Some((from_serde(value), taken, rest))
}

/// What JSON allows between any two parts of a text.
pub open spec fn blanks() -> Seq<char> {
    seq![' ', '\n', '\t', '\r']
}

/// What follows behind a mark, where the text starts with it, blanks aside.
pub open spec fn behind(text: Seq<char>, mark: char) -> Option<Seq<char>> {
    let rest = without_leading(text, blanks());
    if rest.len() > 0 && rest[0] == mark {
        Some(rest.drop_first())
    } else {
        None
    }
}

/// The member that a text starts with: its name, the text of its value, and what
/// follows.
pub open spec fn first_member(text: Seq<char>) -> Option<(Seq<char>, Seq<char>, Seq<char>)> {
    match json_prefix(text) {
        Some((JsonView::Str(name), after)) => match behind(after, ':') {
            Some(value) => match json_prefix(value) {
                Some((_, rest)) => Some((name, value.take(value.len() - rest.len()), rest)),
                None => None,
            },
            None => None,
        },
        _ => None,
    }
}

/// The members that a text starts with, with a comma between two.
pub open spec fn members_from(text: Seq<char>) -> Seq<(Seq<char>, Seq<char>)>
    decreases text.len(),
{
    match first_member(text) {
        Some((name, value, rest)) => seq![(name, value)] + match behind(rest, ',') {
            Some(more) => if more.len() < text.len() {
                members_from(more)
            } else {
                Seq::empty()
            },
            None => Seq::empty(),
        },
        None => Seq::empty(),
    }
}

/// The members of the object in a text, each with its name and the text of its
/// value; none where there is no object.
pub open spec fn members_of(text: Seq<char>) -> Seq<(Seq<char>, Seq<char>)> {
    match behind(text, '{') {
        Some(inside) => members_from(inside),
        None => Seq::empty(),
    }
}

/// What an object is written as, member by member: each name with the text of its
/// value.
pub open spec fn written(members: Seq<(Seq<char>, Layout)>) -> Seq<(Seq<char>, Seq<char>)> {
    Seq::new(members.len(), |i: int| (members[i].0, layout_text(members[i].1)))
}

/// A list of members that were read.
pub open spec fn listed(members: Seq<(String, &str)>) -> Seq<(Seq<char>, Seq<char>)> {
    Seq::new(members.len(), |i: int| (members[i].0@, members[i].1@))
}

/// What fits a depth fits a greater one.
proof fn lemma_fits_deeper(value: JsonView, depth: nat, more: nat)
    requires
        fits(value, depth),
        depth <= more,
    ensures
        fits(value, more),
    decreases depth,
{
    match value {
        JsonView::Array(items) => {
            assert forall|i: int| 0 <= i < items.len() implies fits(
                #[trigger] items[i],
                (more - 1) as nat,
            ) by {
                lemma_fits_deeper(items[i], (depth - 1) as nat, (more - 1) as nat);
            }
        },
        JsonView::Object(members) => {
            assert forall|name: Seq<char>| #[trigger] members.contains_key(name) implies fits(
                members[name],
                (more - 1) as nat,
            ) by {
                lemma_fits_deeper(members[name], (depth - 1) as nat, (more - 1) as nat);
            }
        },
        _ => {},
    }
}

/// What fits a depth fits a greater one.
pub(crate) proof fn lemma_layout_fits_deeper(layout: Layout, depth: nat, more: nat)
    requires
        layout_fits(layout, depth),
        depth <= more,
    ensures
        layout_fits(layout, more),
    decreases depth,
{
    match layout {
        Layout::Leaf(value) => lemma_fits_deeper(value, depth, more),
        Layout::Object(members) => {
            assert forall|i: int| 0 <= i < members.len() implies layout_fits(
                (#[trigger] members[i]).1,
                (more - 1) as nat,
            ) by {
                lemma_layout_fits_deeper(members[i].1, (depth - 1) as nat, (more - 1) as nat);
            }
        },
    }
}

/// The text of members is that of the first, and behind a comma that of the
/// others.
proof fn lemma_members_text_front(members: Seq<(Seq<char>, Layout)>)
    requires
        members.len() > 0,
    ensures
        members_text(members) == member_layout_text(members[0].0, layout_text(members[0].1)) + (
        if members.len() > 1 {
            ","@ + members_text(members.drop_first())
        } else {
            Seq::empty()
        }),
    decreases members.len(),
{
    if members.len() == 1 {
        assert(members_text(members) =~= member_layout_text(
            members[0].0,
            layout_text(members[0].1),
        ) + Seq::empty());
    } else {
        let front = members.drop_last();
        let rest = members.drop_first();
        let last = member_layout_text(members.last().0, layout_text(members.last().1));
        lemma_members_text_front(front);
        assert(rest.last() == members.last());
        assert(rest.drop_last() =~= front.drop_first());
        if rest.len() == 1 {
            assert(members_text(rest) == last);
        } else {
            assert(members_text(rest) == members_text(front.drop_first()) + ","@ + last);
        }
        assert(members_text(members) =~= member_layout_text(
            members[0].0,
            layout_text(members[0].1),
        ) + (","@ + members_text(rest)));
    }
}

/// Finds what follows behind a mark.
fn find_behind<'a>(text: &'a str, mark: char) -> (rest: Option<&'a str>)
    ensures
        match rest {
            Some(r) => behind(text@, mark) == Some(r@),
            None => behind(text@, mark) is None,
        },
{
    let blank: [char; 4] = [' ', '\n', '\t', '\r'];
    proof {
        assert(blank@ =~= blanks());
    }
    drop_first(drop_leading(text, blank.as_slice()), mark)
}

/// A text that starts with no blank stays as it is, and a mark is found where it
/// starts with it.
proof fn lemma_behind(text: Seq<char>, mark: char)
    requires
        text.len() > 0,
        text[0] == ':' || text[0] == ',' || text[0] == '{' || text[0] == '}',
    ensures
        behind(text, mark) == if text[0] == mark {
            Some(text.drop_first())
        } else {
            None
        },
{
    assert(!blanks().contains(text[0]));
}

/// What follows a mark is shorter than the text.
proof fn lemma_behind_shorter(text: Seq<char>, mark: char)
    ensures
        behind(text, mark) matches Some(rest) ==> rest.len() < text.len(),
{
    lemma_without_leading_shorter(text, blanks());
}

/// A text without its leading characters is not longer.
proof fn lemma_without_leading_shorter(text: Seq<char>, characters: Seq<char>)
    ensures
        without_leading(text, characters).len() <= text.len(),
    decreases text.len(),
{
    if text.len() > 0 && characters.contains(text[0]) {
        lemma_without_leading_shorter(text.drop_first(), characters);
    }
}

/// Reads the member that a text starts with.
fn read_member<'a>(text: &'a str) -> (member: Option<(String, &'a str, &'a str)>)
    ensures
        match member {
            Some((name, value, rest)) => {
                &&& first_member(text@) == Some((name@, value@, rest@))
                &&& rest@.len() < text@.len()
            },
            None => first_member(text@) is None,
        },
        forall|name: Seq<char>, layout: Layout, rest: Seq<char>|
            text@ == #[trigger] (member_layout_text(name, layout_text(layout)) + rest)
                && ends_value(rest) && layout_fits(layout, MAX_DEPTH as nat) ==> first_member(text@)
                == Some((name, layout_text(layout), rest)),
{
    proof {
        reveal_strlit(":");
    }
    let ghost colon = ":"@;
    let named = read_prefix(text);
    proof {
        assert forall|name: Seq<char>, layout: Layout, rest: Seq<char>|
            text@ == #[trigger] (member_layout_text(name, layout_text(layout)) + rest) implies {
            &&& json_prefix(text@) == Some((JsonView::Str(name), colon + layout_text(layout) + rest))
            &&& behind(colon + layout_text(layout) + rest, ':') == Some(layout_text(layout) + rest)
        } by {
            let after = colon + layout_text(layout) + rest;
            let leaf = Layout::Leaf(JsonView::Str(name));
            assert(text@ =~= layout_text(leaf) + after);
            assert(ends_value(after));
            assert(layout_fits(leaf, MAX_DEPTH as nat));
            lemma_behind(after, ':');
            assert(after.drop_first() =~= layout_text(layout) + rest);
        }
    }
    match named {
        Some((Json::String(name), _, after)) => {
            proof {
                lemma_behind_shorter(after@, ':');
            }
            match find_behind(after, ':') {
                Some(value_on) => match read_prefix(value_on) {
                    Some((_, value, rest)) => {
                        proof {
                            assert(value_on@.take(value_on@.len() - rest@.len()) =~= value@);
                            assert forall|n: Seq<char>, layout: Layout, r: Seq<char>|
                                text@ == #[trigger] (member_layout_text(n, layout_text(layout)) + r)
                                    && ends_value(r) && layout_fits(
                                    layout,
                                    MAX_DEPTH as nat,
                                ) implies first_member(text@) == Some(
                                (n, layout_text(layout), r),
                            ) by {
                                assert(value_on@ == layout_text(layout) + r);
                                assert(rest@ == r);
                                assert(value@ =~= layout_text(layout));
                            }
                        }
                        Some((name, value, rest))
                    },
                    None => {
                        proof {
                            assert forall|n: Seq<char>, layout: Layout, r: Seq<char>|
                                text@ == #[trigger] (member_layout_text(n, layout_text(layout)) + r)
                                    && ends_value(r) implies !layout_fits(
                                layout,
                                MAX_DEPTH as nat,
                            ) by {
                                assert(value_on@ == layout_text(layout) + r);
                            }
                        }
                        None
                    },
                },
                None => None,
            }
        },
        _ => None,
    }
}

/// Reads the members of the object in a text.
#[verifier::spinoff_prover]
#[verifier::rlimit(50)]
pub fn read_members<'a>(text: &'a str) -> (members: Vec<(String, &'a str)>)
    ensures
        listed(members@) == members_of(text@),
        forall|layout: Seq<(Seq<char>, Layout)>|
            text@ == #[trigger] layout_text(Layout::Object(layout)) && layout.len() > 0
                && layout_fits(Layout::Object(layout), MAX_DEPTH as nat) ==> members_of(text@)
                == written(layout),
{
    proof {
        reveal_strlit("{");
        reveal_strlit("}");
        reveal_strlit(",");
    }
    let mut members: Vec<(String, &'a str)> = Vec::new();
    let mut rest: &'a str = match find_behind(text, '{') {
        Some(inside) => inside,
        None => {
            proof {
                assert(listed(members@) =~= Seq::empty());
                assert forall|layout: Seq<(Seq<char>, Layout)>|
                    text@ != #[trigger] layout_text(Layout::Object(layout)) by {
                    if text@ == layout_text(Layout::Object(layout)) {
                        assert(text@[0] == '{');
                        lemma_behind(text@, '{');
                    }
                }
            }
            return members;
        },
    };
    proof {
        assert(listed(members@) + members_from(rest@) =~= members_from(rest@));
        assert forall|layout: Seq<(Seq<char>, Layout)>|
            text@ == #[trigger] layout_text(Layout::Object(layout)) && layout.len()
                > 0 implies rest@ == members_text(layout.skip(0)) + "}"@ by {
            assert(text@[0] == '{');
            lemma_behind(text@, '{');
            assert(layout.skip(0) =~= layout);
            assert(rest@ =~= members_text(layout) + "}"@);
        }
    }
    loop
        invariant
            members_of(text@) == listed(members@) + members_from(rest@),
            forall|layout: Seq<(Seq<char>, Layout)>|
                text@ == #[trigger] layout_text(Layout::Object(layout)) && layout.len() > 0
                    && layout_fits(Layout::Object(layout), MAX_DEPTH as nat) ==> {
                    &&& members@.len() < layout.len()
                    &&& listed(members@) == written(layout.take(members@.len() as int))
                    &&& rest@ == members_text(layout.skip(members@.len() as int)) + "}"@
                },
            "}"@ == seq!['}'],
            ","@ == seq![','],
        decreases rest@.len(),
    {
        let ghost before = members@;
        let ghost k = members@.len() as int;
        let ghost at = rest@;
        let read = read_member(rest);
        proof {
            assert forall|layout: Seq<(Seq<char>, Layout)>|
                text@ == #[trigger] layout_text(Layout::Object(layout)) && layout.len() > 0
                    && layout_fits(Layout::Object(layout), MAX_DEPTH as nat) implies first_member(
                at,
            ) == Some(
                (
                    layout[k].0,
                    layout_text(layout[k].1),
                    if k + 1 < layout.len() {
                        ","@ + members_text(layout.skip(k + 1)) + "}"@
                    } else {
                        "}"@
                    },
                ),
            ) by {
                let left = layout.skip(k);
                let tail = if k + 1 < layout.len() {
                    ","@ + members_text(layout.skip(k + 1)) + "}"@
                } else {
                    "}"@
                };
                lemma_members_text_front(left);
                assert(left[0] == layout[k]);
                assert(left.drop_first() =~= layout.skip(k + 1));
                assert(at =~= member_layout_text(layout[k].0, layout_text(layout[k].1)) + tail);
                assert(ends_value(tail));
                lemma_layout_fits_deeper(layout[k].1, (MAX_DEPTH - 1) as nat, MAX_DEPTH as nat);
            }
        }
        match read {
            Some((name, value, behind_it)) => {
                members.push((name, value));
                proof {
                    assert(listed(members@) =~= listed(before).push((name@, value@)));
                    assert(listed(members@) =~= listed(before) + seq![(name@, value@)]);
                    lemma_behind_shorter(behind_it@, ',');
                    assert forall|layout: Seq<(Seq<char>, Layout)>|
                        text@ == #[trigger] layout_text(Layout::Object(layout)) && layout.len() > 0
                            && layout_fits(
                            Layout::Object(layout),
                            MAX_DEPTH as nat,
                        ) implies listed(members@) == written(layout.take(k + 1)) && behind(
                        behind_it@,
                        ',',
                    ) == if k + 1 < layout.len() {
                        Some(members_text(layout.skip(k + 1)) + "}"@)
                    } else {
                        None
                    } by {
                        assert(listed(members@) =~= written(layout.take(k + 1)));
                        lemma_behind(behind_it@, ',');
                        if k + 1 < layout.len() {
                            assert(behind_it@.drop_first() =~= members_text(layout.skip(k + 1))
                                + "}"@);
                        }
                    }
                }
                match find_behind(behind_it, ',') {
                    Some(more) => {
                        proof {
                            assert(listed(before) + (seq![(name@, value@)] + members_from(more@))
                                =~= listed(members@) + members_from(more@));
                        }
                        rest = more;
                    },
                    None => {
                        proof {
                            assert(listed(before) + (seq![(name@, value@)] + Seq::empty())
                                =~= listed(members@));
                            assert forall|layout: Seq<(Seq<char>, Layout)>|
                                text@ == #[trigger] layout_text(Layout::Object(layout))
                                    && layout.len() > 0 && layout_fits(
                                    Layout::Object(layout),
                                    MAX_DEPTH as nat,
                                ) implies members_of(text@) == written(layout) by {
                                assert(layout.take(k + 1) =~= layout);
                            }
                        }
                        return members;
                    },
                }
            },
            None => {
                proof {
                    assert(listed(before) + Seq::empty() =~= listed(members@));
                }
                return members;
            },
        }
    }
}

/// Whether a name is repeated.
pub open spec fn repeats(members: Seq<(Seq<char>, Seq<char>)>, name: Seq<char>) -> bool {
    exists|i: int, j: int|
        0 <= i < j < members.len() && (#[trigger] members[i]).0 == name && (
        #[trigger] members[j]).0 == name
}

/// Whether one of the names is repeated.
pub open spec fn repeats_any(
    members: Seq<(Seq<char>, Seq<char>)>,
    names: Seq<Seq<char>>,
) -> bool {
    exists|i: int| 0 <= i < names.len() && repeats(members, #[trigger] names[i])
}

/// The text of the last member of a name; nothing where there is none.
pub open spec fn value_text(members: Seq<(Seq<char>, Seq<char>)>, name: Seq<char>) -> Seq<char>
    decreases members.len(),
{
    if members.len() == 0 {
        Seq::empty()
    } else if members.last().0 == name {
        members.last().1
    } else {
        value_text(members.drop_last(), name)
    }
}

/// Whether a name is repeated.
pub fn is_repeated(members: &Vec<(String, &str)>, name: &str) -> (answer: bool)
    ensures
        answer == repeats(listed(members@), name@),
{
    let mut seen: bool = false;
    let mut k: usize = 0;
    while k < members.len()
        invariant
            k <= members@.len(),
            seen == exists|i: int| 0 <= i < k && (#[trigger] members@[i]).0@ == name@,
            forall|i: int, j: int|
                0 <= i < j < k ==> (#[trigger] members@[i]).0@ != name@ || (
                #[trigger] members@[j]).0@ != name@,
        decreases members@.len() - k,
    {
        if same_text(members[k].0.as_str(), name) {
            if seen {
                proof {
                    let i = choose|i: int| 0 <= i < k && (#[trigger] members@[i]).0@ == name@;
                    let all = listed(members@);
                    assert(all[i].0 == name@ && all[k as int].0 == name@);
                }
                return true;
            }
            seen = true;
            assert(members@[k as int].0@ == name@);
        }
        k = k + 1;
    }
    proof {
        let all = listed(members@);
        assert forall|i: int, j: int| 0 <= i < j < all.len() implies (#[trigger] all[i]).0 != name@
            || (#[trigger] all[j]).0 != name@ by {
            assert(members@[i].0@ != name@ || members@[j].0@ != name@);
        }
    }
    false
}

/// The texts of a list of names.
pub open spec fn names_view(names: Seq<&str>) -> Seq<Seq<char>> {
    Seq::new(names.len(), |i: int| names[i]@)
}

/// Whether one of the names is repeated.
pub fn is_any_repeated(members: &Vec<(String, &str)>, names: &[&str]) -> (answer: bool)
    ensures
        answer == repeats_any(listed(members@), names_view(names@)),
{
    let ghost wanted = names_view(names@);
    let mut k: usize = 0;
    while k < names.len()
        invariant
            k <= names@.len(),
            wanted == names_view(names@),
            forall|i: int| 0 <= i < k ==> !repeats(listed(members@), #[trigger] wanted[i]),
        decreases names@.len() - k,
    {
        assert(wanted[k as int] == names@[k as int]@);
        if is_repeated(members, names[k]) {
            return true;
        }
        k = k + 1;
    }
    false
}

/// Where no two members bear the same name, none is repeated.
pub(crate) proof fn lemma_unrepeated(members: Seq<(Seq<char>, Layout)>)
    requires
        forall|i: int, j: int|
            0 <= i < j < members.len() ==> (#[trigger] members[i]).0 != (#[trigger] members[j]).0,
    ensures
        forall|names: Seq<Seq<char>>| !#[trigger] repeats_any(written(members), names),
{
    assert forall|names: Seq<Seq<char>>| !#[trigger] repeats_any(written(members), names) by {
        assert forall|k: int| 0 <= k < names.len() implies !repeats(
            written(members),
            #[trigger] names[k],
        ) by {
            assert forall|i: int, j: int| 0 <= i < j < members.len() implies (
            #[trigger] written(members)[i]).0 != (#[trigger] written(members)[j]).0 by {
                assert(members[i].0 != members[j].0);
            }
        }
    }
}

/// The text of the last member of a name.
pub fn find_value_text<'a>(members: &Vec<(String, &'a str)>, name: &str) -> (text: &'a str)
    ensures
        text@ == value_text(listed(members@), name@),
{
    let mut left: usize = members.len();
    proof {
        assert(listed(members@).take(left as int) =~= listed(members@));
    }
    while left > 0
        invariant
            left <= members@.len(),
            value_text(listed(members@), name@) == value_text(
                listed(members@).take(left as int),
                name@,
            ),
        decreases left,
    {
        proof {
            let front = listed(members@).take(left as int);
            assert(front.drop_last() =~= listed(members@).take(left - 1));
        }
        if same_text(members[left - 1].0.as_str(), name) {
            return members[left - 1].1;
        }
        left = left - 1;
    }
    proof {
        reveal_strlit("");
        assert(""@ =~= Seq::empty());
    }
    ""
}

} // verus!
