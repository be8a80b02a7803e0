//! Text helpers.

use vstd::prelude::*;

verus! {

/// Whether two texts are the same.
pub fn same_text(a: &str, b: &str) -> (same: bool)
    ensures
        same == (a@ == b@),
{
    a.to_owned() == b.to_owned()
}

/// One text after the other.
pub fn join(a: &str, b: &str) -> (joined: String)
    ensures
        joined@ == a@ + b@,
{
    let mut joined = a.to_owned();
    joined.append(b);
    joined
}

/// Whether a text is among the given ones.
pub fn contains_text(texts: &Vec<String>, text: &str) -> (found: bool)
    ensures
        found == crate::util::string_map::holds_text(texts@, text@),
{
    let mut i: usize = 0;
    while i < texts.len()
        invariant
            i <= texts@.len(),
            forall|j: int| 0 <= j < i ==> (#[trigger] texts@[j])@ != text@,
        decreases texts@.len() - i,
    {
        if same_text(texts[i].as_str(), text) {
            return true;
        }
        i = i + 1;
    }
    false
}

/// The view of an optional text.
pub open spec fn optional_text(text: Option<String>) -> Option<Seq<char>> {
    match text {
        Some(t) => Some(t@),
        None => None,
    }
}

/// A copy of an optional text.
pub fn clone_text(text: &Option<String>) -> (copy: Option<String>)
    ensures
        optional_text(copy) == optional_text(*text),
{
    match text {
        Some(t) => Some(t.clone()),
        None => None,
    }
}

/// The view of an optional text that is borrowed.
pub open spec fn optional_str(text: Option<&str>) -> Option<Seq<char>> {
    match text {
        Some(t) => Some(t@),
        None => None,
    }
}

/// A decimal digit as a character.
pub open spec fn digit_char(digit: nat) -> char {
    (48 + digit) as char
}

/// A number in decimal, without leading zeros.
pub open spec fn decimal_text(number: nat) -> Seq<char>
    decreases number,
{
    if number < 10 {
        seq![digit_char(number)]
    } else {
        decimal_text(number / 10).push(digit_char(number % 10))
    }
}

/// A decimal digit as text.
fn digit_text(digit: u64) -> (text: &'static str)
    requires
        digit < 10,
    ensures
        text@ == seq![digit_char(digit as nat)],
{
    proof {
        reveal_strlit("0");
        reveal_strlit("1");
        reveal_strlit("2");
        reveal_strlit("3");
        reveal_strlit("4");
        reveal_strlit("5");
        reveal_strlit("6");
        reveal_strlit("7");
        reveal_strlit("8");
        reveal_strlit("9");
    }
    if digit == 0 {
        "0"
    } else if digit == 1 {
        "1"
    } else if digit == 2 {
        "2"
    } else if digit == 3 {
        "3"
    } else if digit == 4 {
        "4"
    } else if digit == 5 {
        "5"
    } else if digit == 6 {
        "6"
    } else if digit == 7 {
        "7"
    } else if digit == 8 {
        "8"
    } else {
        "9"
    }
}

/// Writes a number in decimal.
pub fn decimal(number: u64) -> (text: String)
    ensures
        text@ == decimal_text(number as nat),
    decreases number,
{
    if number < 10 {
        digit_text(number).to_owned()
    } else {
        let mut text = decimal(number / 10);
        let last = digit_text(number % 10);
        text.append(last);
        proof {
            assert(text@ =~= decimal_text((number / 10) as nat).push(
                digit_char((number % 10) as nat),
            ));
        }
        text
    }
}

/// Whether a character is white space.
pub open spec fn is_space(c: char) -> bool {
    ||| '\u{9}' <= c <= '\u{d}'
    ||| c == '\u{20}'
    ||| c == '\u{85}'
    ||| c == '\u{a0}'
    ||| c == '\u{1680}'
    ||| '\u{2000}' <= c <= '\u{200a}'
    ||| c == '\u{2028}'
    ||| c == '\u{2029}'
    ||| c == '\u{202f}'
    ||| c == '\u{205f}'
    ||| c == '\u{3000}'
}

/// Whether a character is white space.
fn white_space(c: char) -> (answer: bool)
    ensures
        answer == is_space(c),
{
    ('\u{9}' <= c && c <= '\u{d}') || c == '\u{20}' || c == '\u{85}' || c == '\u{a0}' || c
        == '\u{1680}' || ('\u{2000}' <= c && c <= '\u{200a}') || c == '\u{2028}' || c
        == '\u{2029}' || c == '\u{202f}' || c == '\u{205f}' || c == '\u{3000}'
}

/// A text without the white space that it starts with.
pub open spec fn trimmed_start(text: Seq<char>) -> Seq<char>
    decreases text.len(),
{
    if text.len() > 0 && is_space(text[0]) {
        trimmed_start(text.drop_first())
    } else {
        text
    }
}

/// A text without the white space that it ends with.
pub open spec fn trimmed_end(text: Seq<char>) -> Seq<char>
    decreases text.len(),
{
    if text.len() > 0 && is_space(text.last()) {
        trimmed_end(text.drop_last())
    } else {
        text
    }
}

/// A text without the white space around it.
pub open spec fn trimmed(text: Seq<char>) -> Seq<char> {
    trimmed_end(trimmed_start(text))
}

/// A text without the white space around it.
pub fn trim(text: &str) -> (rest: &str)
    ensures
        rest@ == trimmed(text@),
{
    let length = text.unicode_len();
    let mut from: usize = 0;
    proof {
        assert(text@.skip(0) =~= text@);
    }
    while from < length && white_space(text.get_char(from))
        invariant
            from <= length,
            length == text@.len(),
            trimmed_start(text@) == trimmed_start(text@.skip(from as int)),
        decreases length - from,
    {
        proof {
            assert(text@.skip(from as int).drop_first() =~= text@.skip(from + 1));
        }
        from = from + 1;
    }
    let ghost kept = text@.skip(from as int);
    assert(trimmed_start(text@) == kept);
    let mut to: usize = length;
    proof {
        assert(text@.subrange(from as int, to as int) =~= kept);
    }
    while from < to && white_space(text.get_char(to - 1))
        invariant
            from <= to <= length,
            length == text@.len(),
            trimmed_end(kept) == trimmed_end(text@.subrange(from as int, to as int)),
        decreases to,
    {
        proof {
            assert(text@.subrange(from as int, to as int).drop_last() =~= text@.subrange(
                from as int,
                to - 1,
            ));
        }
        to = to - 1;
    }
    text.substring_char(from, to)
}

/// A text without those of the given characters that it starts with.
pub open spec fn without_leading(text: Seq<char>, characters: Seq<char>) -> Seq<char>
    decreases text.len(),
{
    if text.len() > 0 && characters.contains(text[0]) {
        without_leading(text.drop_first(), characters)
    } else {
        text
    }
}

/// Drops those of the given characters that a text starts with, by
/// `str::trim_start_matches`.
///
/// Taken on trust: that it drops them all, up to the first other character.
#[verifier::external_body]
pub(crate) fn drop_leading<'a>(text: &'a str, characters: &[char]) -> (rest: &'a str)
    ensures
        rest@ == without_leading(text@, characters@),
{
    text.trim_start_matches(characters)
}

/// Drops the character that a text starts with, where it is that one, by
/// `str::strip_prefix`.
///
/// Taken on trust: that it hands out the rest of the text exactly where the text
/// starts with the character.
#[verifier::external_body]
pub(crate) fn drop_first<'a>(text: &'a str, character: char) -> (rest: Option<&'a str>)
    ensures
        match rest {
            Some(r) => text@.len() > 0 && text@[0] == character && r@ == text@.drop_first(),
            None => text@.len() == 0 || text@[0] != character,
        },
{
    text.strip_prefix(character)
}

/// Whether a text stands somewhere in another.
pub open spec fn has_subtext(text: Seq<char>, part: Seq<char>) -> bool {
    exists|at: int|
        0 <= at <= text.len() - part.len() && #[trigger] text.subrange(at, at + part.len()) == part
}

/// Whether a text stands somewhere in another.
pub fn contains_subtext(text: &str, part: &str) -> (found: bool)
    ensures
        found == has_subtext(text@, part@),
{
    let length = text.unicode_len();
    let width = part.unicode_len();
    if width > length {
        return false;
    }
    if width == 0 {
        assert(text@.subrange(0int, 0int + part@.len()) =~= part@);
        return true;
    }
    let mut at: usize = 0;
    while at <= length - width
        invariant
            length == text@.len(),
            width == part@.len(),
            0 < width <= length,
            at <= length - width + 1,
            forall|k: int| 0 <= k < at ==> #[trigger] text@.subrange(k, k + part@.len()) != part@,
        decreases length - width + 1 - at,
    {
        if same_text(text.substring_char(at, at + width), part) {
            assert(text@.subrange(at as int, at + part@.len()) == part@);
            return true;
        }
        at = at + 1;
    }
    false
}

} // verus!
