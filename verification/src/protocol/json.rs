//! JSON values: the tree that the protocol logic reads, and its text form.
//!
//! Parsing text and writing text are the work of `serde_json`; a [`Json`] is
//! what the rest of the library works on.

use vstd::prelude::*;

verus! {

/// A JSON number.
///
/// An integer is held as such; any other number is held as its decimal text.
#[derive(Debug, PartialEq)]
pub enum JsonNumber {
    /// An integer from zero up.
    Unsigned(u64),
    /// An integer below zero.
    Negative(i64),
    /// A number that is no 64-bit integer, as text.
    Float(String),
}

/// A JSON value.
///
/// An object is a list of members; where a name occurs more than once, the
/// last member of that name counts.
#[derive(Debug, PartialEq)]
pub enum Json {
    Null,
    Bool(bool),
    Number(JsonNumber),
    String(String),
    Array(Vec<Json>),
    Object(Vec<(String, Json)>),
}

/// The number that a [`JsonNumber`] stands for.
pub enum NumberView {
    Unsigned(u64),
    Negative(i64),
    Float(Seq<char>),
}

/// The JSON value that a [`Json`] stands for: members have no order.
pub enum JsonView {
    Null,
    Bool(bool),
    Number(NumberView),
    Str(Seq<char>),
    Array(Seq<JsonView>),
    Object(Map<Seq<char>, JsonView>),
}

impl View for JsonNumber {
    type V = NumberView;

    open spec fn view(&self) -> NumberView {
        match *self {
            JsonNumber::Unsigned(n) => NumberView::Unsigned(n),
            JsonNumber::Negative(n) => NumberView::Negative(n),
            JsonNumber::Float(text) => NumberView::Float(text@),
        }
    }
}

/// The views of a list of values, in order.
pub open spec fn items_view(items: Seq<Json>) -> Seq<JsonView>
    decreases items,
{
    if items.len() == 0 {
        Seq::empty()
    } else {
        items_view(items.drop_last()).push(value_view(items.last()))
    }
}

/// The members of an object by name; a later member replaces an earlier one.
pub open spec fn members_view(members: Seq<(String, Json)>) -> Map<Seq<char>, JsonView>
    decreases members,
{
    if members.len() == 0 {
        Map::empty()
    } else {
        members_view(members.drop_last()).insert(members.last().0@, value_view(members.last().1))
    }
}

/// What a [`Json`] stands for.
pub open spec fn value_view(value: Json) -> JsonView
    decreases value,
{
    match value {
        Json::Null => JsonView::Null,
        Json::Bool(b) => JsonView::Bool(b),
        Json::Number(n) => JsonView::Number(n@),
        Json::String(s) => JsonView::Str(s@),
        Json::Array(items) => JsonView::Array(items_view(items@)),
        Json::Object(members) => JsonView::Object(members_view(members@)),
    }
}

impl View for Json {
    type V = JsonView;

    open spec fn view(&self) -> JsonView {
        value_view(*self)
    }
}

/// A list of values has as many views as items, each at its own place.
pub proof fn lemma_items_view(items: Seq<Json>)
    ensures
        items_view(items).len() == items.len(),
        forall|i: int| 0 <= i < items.len() ==> #[trigger] items_view(items)[i] == items[i]@,
    decreases items.len(),
{
    if items.len() > 0 {
        lemma_items_view(items.drop_last());
    }
}

/// A member after which no other bears its name is the one that counts, and a
/// name that no member bears is not in the object.
proof fn lemma_members_lookup(members: Seq<(String, Json)>, from: int, name: Seq<char>)
    requires
        0 <= from <= members.len(),
        forall|j: int| from <= j < members.len() ==> (#[trigger] members[j]).0@ != name,
    ensures
        from > 0 && members[from - 1].0@ == name ==> {
            &&& members_view(members).contains_key(name)
            &&& members_view(members)[name] == members[from - 1].1@
        },
        from == 0 ==> !members_view(members).contains_key(name),
    decreases members.len(),
{
    if members.len() > 0 {
        if from < members.len() {
            assert(members.drop_last().len() >= from);
            assert forall|j: int| from <= j < members.drop_last().len() implies (
            #[trigger] members.drop_last()[j]).0@ != name by {
                assert(members[j].0@ != name);
            }
            lemma_members_lookup(members.drop_last(), from, name);
            assert(members[members.len() - 1].0@ != name);
            if from > 0 {
                assert(members.drop_last()[from - 1] == members[from - 1]);
            }
        }
    }
}

/// The value of member `name` where `value` is an object that has one.
pub open spec fn member(value: JsonView, name: Seq<char>) -> Option<JsonView> {
    match value {
        JsonView::Object(members) => if members.contains_key(name) {
            Some(members[name])
        } else {
            None
        },
        _ => None,
    }
}

/// The text of a string value.
pub open spec fn text_of(value: JsonView) -> Option<Seq<char>> {
    match value {
        JsonView::Str(text) => Some(text),
        _ => None,
    }
}

/// Member `name` of `value`, where it is there and a string.
pub open spec fn member_text(value: JsonView, name: Seq<char>) -> Option<Seq<char>> {
    match member(value, name) {
        Some(found) => text_of(found),
        None => None,
    }
}

impl Json {
    /// The member of that name, where this is an object that has one.
    pub fn get(&self, name: &str) -> (found: Option<&Json>)
        ensures
            match found {
                Some(value) => member(self@, name@) == Some(value@),
                None => member(self@, name@) is None,
            },
    {
        match self {
            Json::Object(members) => {
                let wanted = name.to_owned();
                let mut left: usize = members.len();
                while left > 0
                    invariant
                        left <= members.len(),
                        wanted@ == name@,
                        self@ == JsonView::Object(members_view(members@)),
                        forall|j: int|
                            left <= j < members.len() ==> (#[trigger] members@[j]).0@ != name@,
                    decreases left,
                {
                    if members[left - 1].0 == wanted {
                        proof {
                            lemma_members_lookup(members@, left as int, name@);
                        }
                        return Some(&members[left - 1].1);
                    }
                    left = left - 1;
                }
                proof {
                    lemma_members_lookup(members@, 0, name@);
                }
                None
            },
            _ => None,
        }
    }

    /// Reads a value from JSON text; `None` where it holds none.
    pub fn from_text(text: &str) -> (value: Option<Json>)
        ensures
            match value {
                Some(v) => json_parse(text@) == Some(v@),
                None => json_parse(text@) is None,
            },
            forall|layout: Layout|
                text@ == #[trigger] layout_text(layout) && layout_fits(layout, MAX_DEPTH as nat)
                    ==> value is Some && value->0@ == layout_value(layout),
    {
        parse(text)
    }

    /// Writes the value as compact JSON text.
    pub fn to_text(&self) -> (text: String)
        ensures
            text@ == json_text(self@),
    {
        to_text(self)
    }

    /// The text, where this is a string.
    pub fn as_str(&self) -> (text: Option<&str>)
        ensures
            match text {
                Some(t) => text_of(self@) == Some(t@),
                None => text_of(self@) is None,
            },
    {
        match self {
            Json::String(s) => Some(s.as_str()),
            _ => None,
        }
    }

    /// The truth value, where this is one.
    pub fn as_bool(&self) -> (truth: Option<bool>)
        ensures
            truth == match self@ {
                JsonView::Bool(b) => Some(b),
                _ => None,
            },
    {
        match self {
            Json::Bool(b) => Some(*b),
            _ => None,
        }
    }

    /// The number as a signed 64-bit integer, where this is such an integer.
    pub fn as_i64(&self) -> (number: Option<i64>)
        ensures
            number == integer_of(self@),
    {
        match self {
            Json::Number(JsonNumber::Unsigned(n)) => if *n <= 0x7fff_ffff_ffff_ffff {
                Some(*n as i64)
            } else {
                None
            },
            Json::Number(JsonNumber::Negative(n)) => Some(*n),
            _ => None,
        }
    }
}

/// The signed 64-bit integer that a number is.
pub open spec fn integer_of(value: JsonView) -> Option<i64> {
    match value {
        JsonView::Number(NumberView::Unsigned(n)) => if n <= i64::MAX {
            Some(n as i64)
        } else {
            None
        },
        JsonView::Number(NumberView::Negative(n)) => Some(n),
        _ => None,
    }
}

impl Clone for JsonNumber {
    fn clone(&self) -> (copy: Self)
        ensures
            copy@ == self@,
    {
        match self {
            JsonNumber::Unsigned(n) => JsonNumber::Unsigned(*n),
            JsonNumber::Negative(n) => JsonNumber::Negative(*n),
            JsonNumber::Float(text) => JsonNumber::Float(text.clone()),
        }
    }
}

impl Clone for Json {
    fn clone(&self) -> (copy: Self)
        ensures
            copy@ == self@,
        decreases self,
    {
        match self {
            Json::Null => Json::Null,
            Json::Bool(b) => Json::Bool(*b),
            Json::Number(n) => Json::Number(n.clone()),
            Json::String(s) => Json::String(s.clone()),
            Json::Array(items) => {
                let mut copies: Vec<Json> = Vec::new();
                let mut i: usize = 0;
                while i < items.len()
                    invariant
                        i <= items.len(),
                        self == Json::Array(*items),
                        items_view(copies@) == items_view(items@.take(i as int)),
                    decreases items.len() - i,
                {
                    proof {
                        assert(decreases_to!(*self => self->Array_0));
                        assert(decreases_to!(self->Array_0 => items@));
                        assert(decreases_to!(items@ => items@[i as int]));
                    }
                    let copy = items[i].clone();
                    proof {
                        assert(items@.take(i + 1).drop_last() =~= items@.take(i as int));
                    }
                    let ghost before = copies@;
                    copies.push(copy);
                    proof {
                        assert(copies@.drop_last() =~= before);
                    }
                    i = i + 1;
                }
                proof {
                    assert(items@.take(i as int) =~= items@);
                }
                Json::Array(copies)
            },
            Json::Object(members) => {
                let mut copies: Vec<(String, Json)> = Vec::new();
                let mut i: usize = 0;
                while i < members.len()
                    invariant
                        i <= members.len(),
                        self == Json::Object(*members),
                        members_view(copies@) == members_view(members@.take(i as int)),
                    decreases members.len() - i,
                {
                    proof {
                        assert(decreases_to!(*self => self->Object_0));
                        assert(decreases_to!(self->Object_0 => members@));
                        assert(decreases_to!(members@ => members@[i as int]));
                        assert(decreases_to!(members@[i as int] => members@[i as int].1));
                    }
                    let copy = (members[i].0.clone(), members[i].1.clone());
                    proof {
                        assert(members@.take(i + 1).drop_last() =~= members@.take(i as int));
                    }
                    let ghost before = copies@;
                    copies.push(copy);
                    proof {
                        assert(copies@.drop_last() =~= before);
                    }
                    i = i + 1;
                }
                proof {
                    assert(members@.take(i as int) =~= members@);
                }
                Json::Object(copies)
            },
        }
    }
}

/// Whether a value nests at most `depth` deep and holds integers only.
pub open spec fn fits(value: JsonView, depth: nat) -> bool
    decreases depth,
{
    match value {
        JsonView::Number(NumberView::Negative(n)) => n < 0,
        JsonView::Number(NumberView::Float(_)) => false,
        JsonView::Array(items) => depth > 0 && forall|i: int|
            0 <= i < items.len() ==> fits(#[trigger] items[i], (depth - 1) as nat),
        JsonView::Object(members) => {
            &&& depth > 0
            &&& members.dom().finite()
            &&& forall|name: Seq<char>| #[trigger]
                members.contains_key(name) ==> fits(members[name], (depth - 1) as nat)
        },
        _ => true,
    }
}

/// How deep a value may nest that is read back from its text.
pub const MAX_DEPTH: usize = 127;

/// A value together with the order in which the members of its outer objects
/// are written.
pub enum Layout {
    /// A value that `serde_json` writes as a whole.
    Leaf(JsonView),
    /// An object with these members, written in this order.
    Object(Seq<(Seq<char>, Layout)>),
}

/// The text of one member: its name, a colon, its value.
pub open spec fn member_layout_text(name: Seq<char>, value_text: Seq<char>) -> Seq<char> {
    json_text(JsonView::Str(name)) + ":"@ + value_text
}

/// The texts of the members, in order, with a comma between two.
pub open spec fn members_text(members: Seq<(Seq<char>, Layout)>) -> Seq<char>
    decreases members,
{
    if members.len() == 0 {
        Seq::empty()
    } else if members.len() == 1 {
        member_layout_text(members.last().0, layout_text(members.last().1))
    } else {
        members_text(members.drop_last()) + ","@ + member_layout_text(
            members.last().0,
            layout_text(members.last().1),
        )
    }
}

/// The text of a value that is written in a given order.
pub open spec fn layout_text(layout: Layout) -> Seq<char>
    decreases layout,
{
    match layout {
        Layout::Leaf(value) => json_text(value),
        Layout::Object(members) => "{"@ + members_text(members) + "}"@,
    }
}

/// The members of an object by name; a later member replaces an earlier one.
pub open spec fn layout_members(members: Seq<(Seq<char>, Layout)>) -> Map<Seq<char>, JsonView>
    decreases members,
{
    if members.len() == 0 {
        Map::empty()
    } else {
        layout_members(members.drop_last()).insert(
            members.last().0,
            layout_value(members.last().1),
        )
    }
}

/// The value itself, without the order of its members.
pub open spec fn layout_value(layout: Layout) -> JsonView
    decreases layout,
{
    match layout {
        Layout::Leaf(value) => value,
        Layout::Object(members) => JsonView::Object(layout_members(members)),
    }
}

/// Whether a value nests at most `depth` deep and holds integers only.
pub open spec fn layout_fits(layout: Layout, depth: nat) -> bool
    decreases depth,
{
    match layout {
        Layout::Leaf(value) => fits(value, depth),
        Layout::Object(members) => depth > 0 && forall|i: int|
            0 <= i < members.len() ==> layout_fits((#[trigger] members[i]).1, (depth - 1) as nat),
    }
}

/// The text of an object that is written member by member.
pub struct ObjectText {
    text: String,
    is_empty: bool,
    members: Ghost<Seq<(Seq<char>, Layout)>>,
}

impl ObjectText {
    /// The members so far.
    pub closed spec fn members(&self) -> Seq<(Seq<char>, Layout)> {
        self.members@
    }

    #[verifier::type_invariant]
    spec fn well_formed(&self) -> bool {
        &&& self.text@ == "{"@ + members_text(self.members@)
        &&& self.is_empty == (self.members@.len() == 0)
    }

    /// An object without members.
    pub(crate) fn new() -> (object: Self)
        ensures
            object.members() == Seq::<(Seq<char>, Layout)>::empty(),
    {
        let text = "{".to_owned();
        proof {
            assert(text@ =~= "{"@ + members_text(Seq::empty()));
        }
        ObjectText { text, is_empty: true, members: Ghost(Seq::empty()) }
    }

    /// Adds a member whose value is written already.
    pub(crate) fn member(self, name: &str, value_text: &str, layout: Ghost<Layout>) -> (object: Self)
        requires
            value_text@ == layout_text(layout@),
        ensures
            object.members() == self.members().push((name@, layout@)),
    {
        proof {
            use_type_invariant(&self);
        }
        let ghost before = self.members@;
        let ghost after = before.push((name@, layout@));
        proof {
            assert(after.drop_last() =~= before);
        }
        let mut text = self.text;
        if !self.is_empty {
            text.append(",");
        }
        let quoted = to_text(&Json::String(name.to_owned()));
        text.append(quoted.as_str());
        text.append(":");
        text.append(value_text);
        proof {
            assert(text@ =~= "{"@ + members_text(after));
        }
        ObjectText { text, is_empty: false, members: Ghost(after) }
    }

    /// Adds a member.
    pub(crate) fn value(self, name: &str, value: &Json) -> (object: Self)
        ensures
            object.members() == self.members().push((name@, Layout::Leaf(value@))),
    {
        let text = to_text(value);
        self.member(name, text.as_str(), Ghost(Layout::Leaf(value@)))
    }

    /// The finished text.
    pub(crate) fn finish(self) -> (text: String)
        ensures
            text@ == layout_text(Layout::Object(self.members())),
    {
        proof {
            use_type_invariant(&self);
        }
        let mut text = self.text;
        text.append("}");
        text
    }
}

/// The value that `serde_json` reads from a text; `None` where it finds none.
pub uninterp spec fn json_parse(text: Seq<char>) -> Option<JsonView>;

/// The compact text that `serde_json` writes for a value.
pub uninterp spec fn json_text(value: JsonView) -> Seq<char>;

/// The value type of `serde_json`, which the two functions below read and build.
#[verifier::external_type_specification]
#[verifier::external_body]
pub struct ExSerdeValue(serde_json::Value);

/// Takes a `serde_json::Value` over, member for member.
#[verifier::external_body]
pub(crate) fn from_serde(value: serde_json::Value) -> Json {
    match value {
        serde_json::Value::Null => Json::Null,
        serde_json::Value::Bool(b) => Json::Bool(b),
        serde_json::Value::Number(n) => Json::Number(match (n.as_u64(), n.as_i64()) {
            (Some(unsigned), _) => JsonNumber::Unsigned(unsigned),
            (None, Some(signed)) => JsonNumber::Negative(signed),
            (None, None) => JsonNumber::Float(n.to_string()),
        }),
        serde_json::Value::String(s) => Json::String(s),
        serde_json::Value::Array(a) => Json::Array(a.into_iter().map(from_serde).collect()),
        serde_json::Value::Object(m) => Json::Object(m.into_iter().map(|(k, v)| (k, from_serde(v))).collect()),
    }
}

/// Hands a value over to `serde_json`, member for member.
#[verifier::external_body]
pub(crate) fn to_serde(value: &Json) -> serde_json::Value {
    match value {
        Json::Null => serde_json::Value::Null,
        Json::Bool(b) => serde_json::Value::Bool(*b),
        Json::Number(JsonNumber::Unsigned(n)) => serde_json::Value::from(*n),
        Json::Number(JsonNumber::Negative(n)) => serde_json::Value::from(*n),
        Json::Number(JsonNumber::Float(t)) => serde_json::Number::from_f64(t.parse().unwrap_or_default()).into(),
        Json::String(s) => serde_json::Value::String(s.clone()),
        Json::Array(a) => a.iter().map(to_serde).collect(),
        Json::Object(m) => m.iter().map(|(k, v)| (k.clone(), to_serde(v))).collect(),
    }
}

/// Reads a text with `serde_json::from_str`.
///
/// Taken on trust: that the result is a function of the text alone; and that
/// text is read back as the value it was written from, where objects are written
/// member by member and the rest by `serde_json::to_string`. The latter leaves
/// out numbers that are no integers and nesting beyond the depth that
/// `serde_json` reads.
#[verifier::external_body]
pub(crate) fn parse(text: &str) -> (value: Option<Json>)
    ensures
        match value {
            Some(v) => json_parse(text@) == Some(v@),
            None => json_parse(text@) is None,
        },
        forall|layout: Layout|
            text@ == #[trigger] layout_text(layout) && layout_fits(layout, MAX_DEPTH as nat)
                ==> value is Some && value->0@ == layout_value(layout),
{
    serde_json::from_str(text).ok().map(from_serde)
}

/// Writes a value with `serde_json::to_string`.
///
/// Taken on trust: that the text is a function of the value alone, whatever
/// the order in which the members of its objects are held.
#[verifier::external_body]
pub(crate) fn to_text(value: &Json) -> (text: String)
    ensures
        text@ == json_text(value@),
{
    serde_json::to_string(&to_serde(value)).unwrap_or_default()
}

} // verus!
