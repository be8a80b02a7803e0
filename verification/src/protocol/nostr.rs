//! Nostr data: keys, event ids, tags and events.
//!
//! Signing, encrypting and relaying are the work of `nostr-sdk`; these types
//! hold what the protocol logic reads and writes.

use crate::protocol::constants::tags;
use crate::protocol::error::Error;
use vstd::prelude::*;

verus! {

/// Whether a character is a hexadecimal digit.
pub open spec fn is_hex_digit(c: char) -> bool {
    '0' <= c <= '9' || 'a' <= c <= 'f' || 'A' <= c <= 'F'
}

/// A hexadecimal digit in lower case.
pub open spec fn lower_digit(c: char) -> char {
    if 'A' <= c <= 'F' {
        (c as int + 32) as char
    } else {
        c
    }
}

/// How many digits a key or an event id has.
pub const HEX_LENGTH: usize = 64;

/// The key or event id that a text holds: its digits in lower case.
pub open spec fn hex_id(text: Seq<char>) -> Option<Seq<char>> {
    if text.len() == HEX_LENGTH && forall|i: int|
        0 <= i < text.len() ==> is_hex_digit(#[trigger] text[i]) {
        Some(text.map_values(|c: char| lower_digit(c)))
    } else {
        None
    }
}

/// Whether a text is a key or event id as it is written out.
pub open spec fn is_hex_id(text: Seq<char>) -> bool {
    text.len() == HEX_LENGTH && forall|i: int|
        0 <= i < text.len() ==> '0' <= #[trigger] text[i] <= '9' || 'a' <= text[i] <= 'f'
}

/// What is written out of a key or event id is read back as the same.
pub proof fn law_hex_id_stable(text: Seq<char>)
    requires
        is_hex_id(text),
    ensures
        hex_id(text) == Some(text),
{
    assert(text.map_values(|c: char| lower_digit(c)) =~= text);
}

/// What a key or event id is read as is one that is written out.
proof fn lemma_hex_id_valid(text: Seq<char>)
    requires
        hex_id(text) is Some,
    ensures
        is_hex_id(hex_id(text)->0),
{
    let read = hex_id(text)->0;
    assert forall|i: int| 0 <= i < read.len() implies '0' <= #[trigger] read[i] <= '9' || 'a'
        <= read[i] <= 'f' by {
        assert(is_hex_digit(text[i]));
        assert(read[i] == lower_digit(text[i]));
    }
}

/// What `nostr` says of a text that holds no public key.
pub uninterp spec fn public_key_error(text: Seq<char>) -> Seq<char>;

/// What `nostr` says of a text that holds no event id.
pub uninterp spec fn event_id_error(text: Seq<char>) -> Seq<char>;

/// Reads a public key with `nostr_sdk::PublicKey::from_hex` and writes it with
/// `to_hex`.
///
/// Taken on trust: that the 64 hexadecimal digits, in either case, are read, and
/// nothing else; that they are written in lower case; and that the error text is
/// a function of the text alone.
#[verifier::external_body]
fn public_key_hex(text: &str) -> (read: Result<String, String>)
    ensures
        match read {
            Ok(hex) => hex_id(text@) == Some(hex@),
            Err(reason) => hex_id(text@) is None && reason@ == public_key_error(text@),
        },
{
    nostr_sdk::PublicKey::from_hex(text).map(|key| key.to_hex()).map_err(|error| error.to_string())
}

/// Reads an event id with `nostr_sdk::EventId::from_hex` and writes it with
/// `to_hex`.
///
/// Taken on trust: that the 64 hexadecimal digits, in either case, are read, and
/// nothing else; that they are written in lower case; and that the error text is
/// a function of the text alone.
#[verifier::external_body]
fn event_id_hex(text: &str) -> (read: Result<String, String>)
    ensures
        match read {
            Ok(hex) => hex_id(text@) == Some(hex@),
            Err(reason) => hex_id(text@) is None && reason@ == event_id_error(text@),
        },
{
    nostr_sdk::EventId::from_hex(text).map(|id| id.to_hex()).map_err(|error| error.to_string())
}

/// A public key.
#[derive(Debug)]
pub struct PublicKey {
    hex: String,
}

/// The id of an event.
#[derive(Debug)]
pub struct EventId {
    hex: String,
}

impl View for PublicKey {
    type V = Seq<char>;

    closed spec fn view(&self) -> Seq<char> {
        self.hex@
    }
}

impl View for EventId {
    type V = Seq<char>;

    closed spec fn view(&self) -> Seq<char> {
        self.hex@
    }
}

impl PublicKey {
    #[verifier::type_invariant]
    spec fn well_formed(&self) -> bool {
        is_hex_id(self.hex@)
    }

    /// Reads a key from its hexadecimal digits.
    pub fn from_hex(text: &str) -> (key: Result<PublicKey, Error>)
        ensures
            match key {
                Ok(k) => hex_id(text@) == Some(k@),
                Err(error) => {
                    &&& hex_id(text@) is None
                    &&& error matches Error::Other(reason) && reason@ == public_key_error(text@)
                },
            },
    {
        match public_key_hex(text) {
            Ok(hex) => {
                proof {
                    lemma_hex_id_valid(text@);
                }
                Ok(PublicKey { hex })
            },
            Err(reason) => Err(Error::Other(reason)),
        }
    }

    /// The key that is written out like that.
    pub(crate) fn from_written(hex: String) -> (key: PublicKey)
        requires
            is_hex_id(hex@),
        ensures
            key@ == hex@,
    {
        PublicKey { hex }
    }

    /// The hexadecimal digits.
    pub fn to_hex(&self) -> (hex: String)
        ensures
            hex@ == self@,
            is_hex_id(hex@),
    {
        proof {
            use_type_invariant(self);
        }
        self.hex.clone()
    }

    /// Whether two keys are the same.
    pub fn same(&self, other: &PublicKey) -> (same: bool)
        ensures
            same == (self@ == other@),
    {
        self.hex == other.hex
    }
}

impl Clone for PublicKey {
    fn clone(&self) -> (copy: Self)
        ensures
            copy@ == self@,
    {
        proof {
            use_type_invariant(self);
        }
        PublicKey { hex: self.hex.clone() }
    }
}

impl EventId {
    #[verifier::type_invariant]
    spec fn well_formed(&self) -> bool {
        is_hex_id(self.hex@)
    }

    /// Reads an id from its hexadecimal digits.
    pub fn from_hex(text: &str) -> (id: Result<EventId, Error>)
        ensures
            match id {
                Ok(i) => hex_id(text@) == Some(i@),
                Err(error) => {
                    &&& hex_id(text@) is None
                    &&& error matches Error::Other(reason) && reason@ == event_id_error(text@)
                },
            },
    {
        match event_id_hex(text) {
            Ok(hex) => {
                proof {
                    lemma_hex_id_valid(text@);
                }
                Ok(EventId { hex })
            },
            Err(reason) => Err(Error::Other(reason)),
        }
    }

    /// The hexadecimal digits.
    pub fn to_hex(&self) -> (hex: String)
        ensures
            hex@ == self@,
            is_hex_id(hex@),
    {
        proof {
            use_type_invariant(self);
        }
        self.hex.clone()
    }
}

impl Clone for EventId {
    fn clone(&self) -> (copy: Self)
        ensures
            copy@ == self@,
    {
        proof {
            use_type_invariant(self);
        }
        EventId { hex: self.hex.clone() }
    }
}

/// The texts of a list.
pub open spec fn texts_view(texts: Seq<String>) -> Seq<Seq<char>> {
    texts.map_values(|text: String| text@)
}

/// A copy of a list of texts.
fn clone_texts(texts: &Vec<String>) -> (copies: Vec<String>)
    ensures
        texts_view(copies@) == texts_view(texts@),
{
    let mut copies: Vec<String> = Vec::new();
    let mut i: usize = 0;
    while i < texts.len()
        invariant
            i <= texts@.len(),
            texts_view(copies@) =~= texts_view(texts@.take(i as int)),
        decreases texts@.len() - i,
    {
        let ghost before = copies@;
        copies.push(texts[i].clone());
        proof {
            assert(texts_view(copies@) =~= texts_view(before).push(texts@[i as int]@));
            assert(texts@.take(i + 1) =~= texts@.take(i as int).push(texts@[i as int]));
        }
        i = i + 1;
    }
    proof {
        assert(texts@.take(i as int) =~= texts@);
    }
    copies
}

/// A tag of an event: its name, then its values.
#[derive(Debug)]
pub struct Tag {
    items: Vec<String>,
}

impl View for Tag {
    type V = Seq<Seq<char>>;

    closed spec fn view(&self) -> Seq<Seq<char>> {
        texts_view(self.items@)
    }
}

/// The tags of a list.
pub open spec fn tags_view(tags: Seq<Tag>) -> Seq<Seq<Seq<char>>> {
    tags.map_values(|tag: Tag| tag@)
}

impl Tag {
    /// The tag with these items, the name first.
    pub fn from_items(items: Vec<String>) -> (tag: Tag)
        ensures
            tag@ == texts_view(items@),
    {
        Tag { items }
    }

    /// The tag of that name without values.
    pub fn flag(name: &str) -> (tag: Tag)
        ensures
            tag@ == seq![name@],
    {
        let mut items: Vec<String> = Vec::new();
        items.push(name.to_owned());
        proof {
            assert(texts_view(items@) =~= seq![name@]);
        }
        Tag { items }
    }

    /// The tag of that name with one value.
    pub fn custom(name: &str, value: &str) -> (tag: Tag)
        ensures
            tag@ == seq![name@, value@],
    {
        let mut items: Vec<String> = Vec::new();
        items.push(name.to_owned());
        items.push(value.to_owned());
        proof {
            assert(texts_view(items@) =~= seq![name@, value@]);
        }
        Tag { items }
    }

    /// The tag that addresses a key.
    pub fn public_key(key: &PublicKey) -> (tag: Tag)
        ensures
            tag@ == seq![tags::PUBKEY@, key@],
    {
        Tag::custom(tags::PUBKEY, key.to_hex().as_str())
    }

    /// The tag that refers to an event.
    pub fn event(id: &EventId) -> (tag: Tag)
        ensures
            tag@ == seq![tags::EVENT_ID@, id@],
    {
        Tag::custom(tags::EVENT_ID, id.to_hex().as_str())
    }

    /// The items, the name first.
    pub fn to_vec(&self) -> (items: Vec<String>)
        ensures
            texts_view(items@) == self@,
    {
        clone_texts(&self.items)
    }

    /// The value, where the tag bears that name and has one.
    pub fn value_of(&self, name: &str) -> (value: Option<String>)
        ensures
            match value {
                Some(text) => self@.len() >= 2 && self@[0] == name@ && self@[1] == text@,
                None => self@.len() < 2 || self@[0] != name@,
            },
    {
        if self.items.len() >= 2 && crate::util::text::same_text(self.items[0].as_str(), name) {
            Some(self.items[1].clone())
        } else {
            None
        }
    }
}

impl Clone for Tag {
    fn clone(&self) -> (copy: Self)
        ensures
            copy@ == self@,
    {
        Tag { items: clone_texts(&self.items) }
    }
}

/// Adds one tag at the end.
pub fn push_tag(tags: &mut Vec<Tag>, tag: Tag)
    ensures
        tags_view(final(tags)@) == tags_view(old(tags)@).push(tag@),
{
    tags.push(tag);
    proof {
        assert(tags_view(tags@) =~= tags_view(old(tags)@).push(tag@));
    }
}

/// Adds a copy of further tags at the end.
pub fn extend_tags(tags: &mut Vec<Tag>, more: &[Tag])
    ensures
        tags_view(final(tags)@) == tags_view(old(tags)@) + tags_view(more@),
{
    let mut i: usize = 0;
    while i < more.len()
        invariant
            i <= more@.len(),
            tags_view(tags@) =~= tags_view(old(tags)@) + tags_view(more@.take(i as int)),
        decreases more@.len() - i,
    {
        let copy = more[i].clone();
        push_tag(tags, copy);
        proof {
            assert(more@.take(i + 1) =~= more@.take(i as int).push(more@[i as int]));
        }
        i = i + 1;
    }
    proof {
        assert(more@.take(i as int) =~= more@);
    }
}

/// A copy of a list of tags.
pub fn clone_tags(tags: &[Tag]) -> (copies: Vec<Tag>)
    ensures
        tags_view(copies@) == tags_view(tags@),
{
    let mut copies: Vec<Tag> = Vec::new();
    extend_tags(&mut copies, tags);
    proof {
        assert(tags_view(copies@) =~= tags_view(tags@));
    }
    copies
}

/// A signed event, as far as the protocol logic reads it.
#[derive(Debug)]
pub struct Event {
    pub id: EventId,
    pub pubkey: PublicKey,
    pub kind: u16,
    pub tags: Vec<Tag>,
    pub content: String,
}

/// What an [`Event`] says.
pub struct EventView {
    pub id: Seq<char>,
    pub pubkey: Seq<char>,
    pub kind: u16,
    pub tags: Seq<Seq<Seq<char>>>,
    pub content: Seq<char>,
}

impl View for Event {
    type V = EventView;

    open spec fn view(&self) -> EventView {
        EventView {
            id: self.id@,
            pubkey: self.pubkey@,
            kind: self.kind,
            tags: tags_view(self.tags@),
            content: self.content@,
        }
    }
}

/// An event that is yet to be signed.
#[derive(Debug)]
pub struct EventTemplate {
    pub kind: u16,
    pub content: String,
    pub tags: Vec<Tag>,
}

/// What an [`EventTemplate`] says.
pub struct TemplateView {
    pub kind: u16,
    pub content: Seq<char>,
    pub tags: Seq<Seq<Seq<char>>>,
}

impl View for EventTemplate {
    type V = TemplateView;

    open spec fn view(&self) -> TemplateView {
        TemplateView { kind: self.kind, content: self.content@, tags: tags_view(self.tags@) }
    }
}

/// The event that `nostr` reads from a text; `None` where it finds none.
pub uninterp spec fn event_of_text(text: Seq<char>) -> Option<EventView>;

/// Whether `nostr` reads an event from a text whose id and signature are right.
pub uninterp spec fn text_verifies(text: Seq<char>) -> bool;

/// Reads an event from JSON with `serde_json::from_str`, as `nostr_sdk::Event`.
///
/// Taken on trust: that the result is a function of the text alone.
#[verifier::external_body]
pub(crate) fn read_event(text: &str) -> (event: Option<Event>)
    ensures
        match event {
            Some(e) => event_of_text(text@) == Some(e@),
            None => event_of_text(text@) is None,
        },
{
    serde_json::from_str::<nostr_sdk::Event>(text).ok().map(|event| Event {
        id: EventId { hex: event.id.to_hex() },
        pubkey: PublicKey { hex: event.pubkey.to_hex() },
        kind: event.kind.as_u16(),
        tags: event.tags.to_vec().into_iter().map(|tag| Tag { items: tag.to_vec() }).collect(),
        content: event.content,
    })
}

/// Checks the id and the signature of an event that is given as JSON, with
/// `nostr_sdk::Event::verify`.
///
/// Taken on trust: that the result is a function of the text alone.
#[verifier::external_body]
pub(crate) fn verify_event(text: &str) -> (verified: bool)
    ensures
        verified == text_verifies(text@),
{
    serde_json::from_str::<nostr_sdk::Event>(text).is_ok_and(|event| event.verify().is_ok())
}

/// The event that a decrypted text holds, where its id and signature are right.
pub open spec fn verified_event(text: Seq<char>) -> Option<EventView> {
    if text_verifies(text) {
        event_of_text(text)
    } else {
        None
    }
}

/// Reads an event from JSON and checks its id and signature.
pub fn read_verified_event(text: &str) -> (event: Option<Event>)
    ensures
        match event {
            Some(e) => verified_event(text@) == Some(e@),
            None => verified_event(text@) is None,
        },
{
    match read_event(text) {
        Some(event) => if verify_event(text) {
            Some(event)
        } else {
            None
        },
        None => None,
    }
}

} // verus!
