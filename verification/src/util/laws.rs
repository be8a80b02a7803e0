//! What texts, spans of time, collections and lines of the log come to.

use crate::protocol::error::Error;
use crate::util::string_map::StringMap;
use crate::util::text::{
    contains_subtext, contains_text, decimal, decimal_text, digit_char, is_space, join, same_text,
    trim, trimmed_end, trimmed_start,
};
use crate::util::time::Duration;
use crate::util::tracing_setup::{
    fields_text, fields_view, format_event, normalize_log_file_path, subscriber_installed,
    unix_timestamp, LogLevel, MessageVisitor,
};
use vstd::prelude::*;

verus! {

/// How many nanoseconds a span has.
pub open spec fn nanoseconds(span: Duration) -> int {
    span.secs as int * 1_000_000_000 + span.nanos as int
}

/// Seconds and milliseconds make spans of that length, and one span exceeds
/// another exactly where it is longer.
pub proof fn law_spans_measured(
    number: u64,
    seconds: Duration,
    milliseconds: Duration,
    a: Duration,
    b: Duration,
    longer: bool,
)
    requires
        call_ensures(Duration::from_secs, (number,), seconds),
        call_ensures(Duration::from_millis, (number,), milliseconds),
        call_ensures(Duration::exceeds, (a, b), longer),
    ensures
        nanoseconds(seconds) == number * 1_000_000_000,
        nanoseconds(milliseconds) == number * 1_000_000,
        seconds.nanos < 1_000_000_000 && milliseconds.nanos < 1_000_000_000,
        longer <==> nanoseconds(a) > nanoseconds(b),
{
}

/// The number that decimal digits stand for.
pub open spec fn digits_value(text: Seq<char>) -> int
    decreases text.len(),
{
    if text.len() == 0 {
        0
    } else {
        digits_value(text.drop_last()) * 10 + (text.last() as int - 48)
    }
}

/// Whether a text is made of decimal digits.
pub open spec fn is_digits(text: Seq<char>) -> bool {
    forall|i: int| 0 <= i < text.len() ==> '0' <= #[trigger] text[i] <= '9'
}

/// A number in decimal has the value of the number, and no needless zero.
proof fn lemma_decimal(number: nat)
    ensures
        digits_value(decimal_text(number)) == number,
        is_digits(decimal_text(number)),
        decimal_text(number).len() > 0,
        decimal_text(number).len() > 1 ==> decimal_text(number)[0] != '0',
        number < 10 <==> decimal_text(number).len() == 1,
        number > 0 ==> decimal_text(number)[0] != '0',
    decreases number,
{
    let text = decimal_text(number);
    if number < 10 {
        assert(text.drop_last() =~= Seq::empty());
        assert(text.last() == digit_char(number));
        reveal_with_fuel(digits_value, 2);
    } else {
        lemma_decimal(number / 10);
        let front = decimal_text(number / 10);
        assert(text == front.push(digit_char(number % 10)));
        assert(text.drop_last() =~= front);
        assert(text.last() == digit_char(number % 10));
        assert(text[0] == front[0]);
    }
}

/// A number is written in decimal digits that stand for it, without needless
/// zeros.
pub proof fn law_number_written(number: u64, text: String)
    requires
        call_ensures(decimal, (number,), text),
    ensures
        text@.len() > 0,
        is_digits(text@),
        digits_value(text@) == number,
        text@.len() > 1 ==> text@[0] != '0',
{
    lemma_decimal(number as nat);
}

/// How many digits the numbers have that are at least ten or a hundred.
proof fn lemma_decimal_width(number: nat)
    ensures
        number < 10 ==> decimal_text(number).len() == 1,
        10 <= number < 100 ==> decimal_text(number).len() == 2,
        100 <= number < 1000 ==> decimal_text(number).len() == 3,
{
    reveal_with_fuel(decimal_text, 4);
}

/// Leading zeros do not count.
proof fn lemma_leading_zeros(zeros: Seq<char>, text: Seq<char>)
    requires
        forall|i: int| 0 <= i < zeros.len() ==> #[trigger] zeros[i] == '0',
    ensures
        digits_value(zeros + text) == digits_value(text),
        is_digits(text) ==> is_digits(zeros + text),
    decreases zeros.len() + text.len(),
{
    let whole = zeros + text;
    if text.len() > 0 {
        assert(whole.drop_last() =~= zeros + text.drop_last());
        lemma_leading_zeros(zeros, text.drop_last());
        assert(whole.last() == text.last());
    } else if zeros.len() > 0 {
        assert(whole.drop_last() =~= zeros.drop_last() + text);
        assert forall|i: int| 0 <= i < zeros.drop_last().len() implies #[trigger] zeros.drop_last()[i]
            == '0' by {
            assert(zeros[i] == '0');
        }
        lemma_leading_zeros(zeros.drop_last(), text);
        assert(whole.last() == zeros.last() && zeros[zeros.len() - 1] == '0');
    }
}

/// A moment is written as its seconds, a point, and three digits for the
/// thousandths.
pub proof fn law_moment_written(secs: u64, millis: u32, text: String)
    requires
        call_ensures(unix_timestamp, (secs, millis), text),
        millis < 1000,
    ensures
        ({
            let point = text@.len() - 4;
            &&& point > 0
            &&& text@[point] == '.'
            &&& is_digits(text@.take(point)) && digits_value(text@.take(point)) == secs
            &&& is_digits(text@.skip(point + 1)) && digits_value(text@.skip(point + 1)) == millis
        }),
{
    reveal_strlit("00");
    reveal_strlit("0");
    reveal_strlit(".");
    let seconds = decimal_text(secs as nat);
    let digits = decimal_text(millis as nat);
    let zeros = if millis < 10 {
        "00"@
    } else if millis < 100 {
        "0"@
    } else {
        Seq::empty()
    };
    lemma_decimal(secs as nat);
    lemma_decimal(millis as nat);
    lemma_decimal_width(millis as nat);
    lemma_leading_zeros(zeros, digits);
    assert(text@ =~= seconds + "."@ + (zeros + digits));
    let point = text@.len() - 4;
    assert(point == seconds.len());
    assert(text@.take(point) =~= seconds);
    assert(text@.skip(point + 1) =~= zeros + digits);
}

/// Two texts are the same where all their characters are; one text behind another
/// has both; a text is found among others exactly where one of them is the same.
pub proof fn law_texts_compared(
    a: &str,
    b: &str,
    same: bool,
    joined: String,
    texts: &Vec<String>,
    found: bool,
)
    requires
        call_ensures(same_text, (a, b), same),
        call_ensures(join, (a, b), joined),
        call_ensures(contains_text, (texts, a), found),
    ensures
        same <==> a@ == b@,
        joined@.len() == a@.len() + b@.len(),
        a@.is_prefix_of(joined@) && b@.is_suffix_of(joined@),
        found <==> exists|i: int| 0 <= i < texts@.len() && (#[trigger] texts@[i])@ == a@,
{
    assert(joined@.take(a@.len() as int) =~= a@);
    assert(joined@.skip(a@.len() as int) =~= b@);
}

/// A text stands in another exactly where all of it is found at some place.
pub proof fn law_subtext_found(text: &str, part: &str, found: bool)
    requires
        call_ensures(contains_subtext, (text, part), found),
    ensures
        found <==> exists|before: Seq<char>, after: Seq<char>| text@ == #[trigger] (before + part@
            + after),
{
    if found {
        let at = choose|at: int|
            0 <= at <= text@.len() - part@.len() && #[trigger] text@.subrange(at, at + part@.len())
                == part@;
        let before = text@.take(at);
        let after = text@.skip(at + part@.len());
        assert(text@ =~= before + part@ + after);
    }
    if exists|before: Seq<char>, after: Seq<char>| text@ == #[trigger] (before + part@ + after) {
        let (before, after) = choose|before: Seq<char>, after: Seq<char>|
            text@ == #[trigger] (before + part@ + after);
        let at = before.len() as int;
        assert(text@.subrange(at, at + part@.len()) =~= part@);
    }
}

/// Whether a text is another without the white space around it: what is left out
/// in front and behind is all white space, and what is left neither starts nor
/// ends with any.
pub open spec fn is_trimmed(rest: Seq<char>, text: Seq<char>) -> bool {
    &&& rest.len() > 0 ==> !is_white(rest[0]) && !is_white(rest.last())
    &&& exists|from: int| #[trigger] is_middle(rest, text, from)
}

/// Whether a text is the middle of another, from that place on, with nothing but
/// white space around it.
pub open spec fn is_middle(rest: Seq<char>, text: Seq<char>, from: int) -> bool {
    &&& 0 <= from <= from + rest.len() <= text.len()
    &&& text.subrange(from, from + rest.len()) == rest
    &&& forall|i: int|
        0 <= i < from || from + rest.len() <= i < text.len() ==> is_white(#[trigger] text[i])
}

/// The characters that are white space: the tab and what follows it up to the
/// carriage return, the space, the next line, and the spaces and separators beyond
/// ASCII.
pub open spec fn is_white(c: char) -> bool {
    let code = c as u32;
    ||| 9 <= code <= 13
    ||| code == 32
    ||| code == 133
    ||| code == 160
    ||| code == 5760
    ||| 8192 <= code <= 8202
    ||| code == 8232
    ||| code == 8233
    ||| code == 8239
    ||| code == 8287
    ||| code == 12288
}

/// The characters that are white space are those with these codes.
proof fn lemma_is_white(c: char)
    ensures
        is_space(c) == is_white(c),
{
    assert(c as u32 == c as int);
}

/// The front of a text is left out as long as it is white space.
proof fn lemma_trimmed_start(text: Seq<char>)
    ensures
        ({
            let rest = trimmed_start(text);
            let from = text.len() - rest.len();
            &&& 0 <= from <= text.len()
            &&& text.skip(from) == rest
            &&& forall|i: int| 0 <= i < from ==> is_white(#[trigger] text[i])
            &&& rest.len() > 0 ==> !is_white(rest[0])
        }),
    decreases text.len(),
{
    let rest = trimmed_start(text);
    if text.len() > 0 {
        lemma_is_white(text[0]);
    }
    if text.len() > 0 && is_space(text[0]) {
        lemma_trimmed_start(text.drop_first());
        let from = text.len() - rest.len();
        assert(text.skip(from) =~= text.drop_first().skip(from - 1));
        assert forall|i: int| 0 <= i < from implies is_white(#[trigger] text[i]) by {
            if i > 0 {
                assert(text.drop_first()[i - 1] == text[i]);
            }
        }
    } else {
        assert(text.skip(0) =~= text);
    }
}

/// The end of a text is left out as long as it is white space.
proof fn lemma_trimmed_end(text: Seq<char>)
    ensures
        ({
            let rest = trimmed_end(text);
            &&& rest.len() <= text.len()
            &&& text.take(rest.len() as int) == rest
            &&& forall|i: int| rest.len() <= i < text.len() ==> is_white(#[trigger] text[i])
            &&& rest.len() > 0 ==> !is_white(rest.last())
        }),
    decreases text.len(),
{
    let rest = trimmed_end(text);
    if text.len() > 0 {
        lemma_is_white(text.last());
    }
    if text.len() > 0 && is_space(text.last()) {
        lemma_trimmed_end(text.drop_last());
        assert(text.take(rest.len() as int) =~= text.drop_last().take(rest.len() as int));
        assert forall|i: int| rest.len() <= i < text.len() implies is_white(#[trigger] text[i]) by {
            if i < text.len() - 1 {
                assert(text.drop_last()[i] == text[i]);
            }
        }
    } else {
        assert(text.take(text.len() as int) =~= text);
    }
}

/// What is left of a text is it without the white space around it.
proof fn lemma_trimmed(text: Seq<char>)
    ensures
        is_trimmed(trimmed_end(trimmed_start(text)), text),
{
    let middle = trimmed_start(text);
    let rest = trimmed_end(middle);
    lemma_trimmed_start(text);
    lemma_trimmed_end(middle);
    let from = text.len() - middle.len();
    assert(text.subrange(from, from + rest.len()) =~= middle.take(rest.len() as int));
    assert forall|i: int| 0 <= i < from || from + rest.len() <= i < text.len() implies is_white(
        #[trigger] text[i],
    ) by {
        if i >= from {
            assert(middle[i - from] == text[i]);
        }
    }
    assert(is_middle(rest, text, from));
    if rest.len() > 0 {
        assert(rest[0] == middle[0]);
    }
}

/// A text is trimmed of the white space around it, and of nothing else.
pub proof fn law_text_trimmed(text: &str, rest: &str)
    requires
        call_ensures(trim, (text,), rest),
    ensures
        is_trimmed(rest@, text@),
{
    lemma_trimmed(text@);
}

/// The path of a log file is what is given without the white space around it;
/// there is none where nothing is left of it or none is given.
pub proof fn law_log_path(given: Option<&str>, path: Option<String>)
    requires
        call_ensures(normalize_log_file_path, (given,), path),
    ensures
        match path {
            Some(kept) => kept@.len() > 0 && (given matches Some(text) && is_trimmed(
                kept@,
                text@,
            )),
            None => given matches Some(text) ==> is_trimmed(Seq::empty(), text@),
        },
{
    if let Some(text) = given {
        lemma_trimmed(text@);
        if path is None {
            assert(trimmed_end(trimmed_start(text@)) =~= Seq::empty());
        }
    }
}

/// That a subscriber is installed already is no failure; any other failure is
/// passed on with its reason.
pub proof fn law_subscriber_installed(attempt: Result<(), String>, result: Result<(), Error>)
    requires
        call_ensures(subscriber_installed, (attempt,), result),
    ensures
        attempt is Ok ==> result is Ok,
        attempt matches Err(text) ==> {
            let already = exists|before: Seq<char>, after: Seq<char>| text@ == #[trigger] (before
                + "global default trace dispatcher has already been set"@ + after);
            &&& already <==> result is Ok
            &&& result matches Err(error) ==> (error matches Error::Other(reason) && reason@
                == "failed to initialize tracing subscriber: "@ + text@)
        },
{
    if let Err(text) = attempt {
        let part = "global default trace dispatcher has already been set"@;
        if crate::util::text::has_subtext(text@, part) {
            let at = choose|at: int|
                0 <= at <= text@.len() - part.len() && #[trigger] text@.subrange(
                    at,
                    at + part.len(),
                ) == part;
            let before = text@.take(at);
            let after = text@.skip(at + part.len());
            assert(text@ =~= before + part + after);
        }
        if exists|before: Seq<char>, after: Seq<char>| text@ == #[trigger] (before + part + after) {
            let (before, after) = choose|before: Seq<char>, after: Seq<char>|
                text@ == #[trigger] (before + part + after);
            let at = before.len() as int;
            assert(text@.subrange(at, at + part.len()) =~= part);
        }
    }
}

/// The field named `message` is the message of an event of the log; any other is
/// kept beside it, behind those that came before.
pub proof fn law_field_recorded(visitor: &mut MessageVisitor, name: &str, value: String)
    requires
        call_ensures(MessageVisitor::record_field, (visitor, name, value), ()),
    ensures
        name@ == "message"@ ==> {
            &&& final(visitor).message matches Some(text) && text@ == value@
            &&& final(visitor).extra_fields@ == old(visitor).extra_fields@
        },
        name@ != "message"@ ==> {
            let before = old(visitor).extra_fields@;
            let after = final(visitor).extra_fields@;
            &&& final(visitor).message == old(visitor).message
            &&& after.len() == before.len() + 1
            &&& after.last().0@ == name@ && after.last().1@ == value@
            &&& forall|i: int|
                0 <= i < before.len() ==> (#[trigger] after[i]).0@ == before[i].0@ && after[i].1@
                    == before[i].1@
        },
{
    if name@ != "message"@ {
        let before = old(visitor).extra_fields@;
        let after = final(visitor).extra_fields@;
        assert(fields_view(after) == fields_view(before).push((name@, value@)));
        assert(fields_view(after).len() == after.len());
        assert(fields_view(after)[after.len() - 1] == (after.last().0@, after.last().1@));
        assert forall|i: int| 0 <= i < before.len() implies (#[trigger] after[i]).0@ == before[i].0@
            && after[i].1@ == before[i].1@ by {
            assert(fields_view(after)[i] == (after[i].0@, after[i].1@));
            assert(fields_view(before)[i] == (before[i].0@, before[i].1@));
        }
    }
}

/// The level of an event of the log is written as its name.
pub open spec fn level_name(level: LogLevel) -> Seq<char> {
    match level {
        LogLevel::Error => "error"@,
        LogLevel::Warn => "warn"@,
        LogLevel::Info => "info"@,
        LogLevel::Debug => "debug"@,
        LogLevel::Trace => "trace"@,
    }
}

/// A line of the log has the moment, the level, the target and the message, each
/// behind its colons, then the fields and the end of the line. Where there is one
/// field, it stands behind a space, as its name and its value.
pub proof fn law_line_written(
    timestamp: &str,
    level: LogLevel,
    target: &str,
    visitor: &MessageVisitor,
    name: &str,
    line: String,
)
    requires
        call_ensures(format_event, (timestamp, level, target, visitor), line),
        call_ensures(LogLevel::as_str, (level,), name),
    ensures
        name@ == level_name(level),
        ({
            let head = timestamp@ + ":"@ + level_name(level) + "::"@ + target@ + ":"@;
            let message = match visitor.message {
                Some(text) => text@,
                None => Seq::empty(),
            };
            &&& (head + message).is_prefix_of(line@)
            &&& visitor.extra_fields@.len() == 0 ==> line@ == head + message + "\n"@
            &&& visitor.extra_fields@.len() == 1 ==> line@ == head + message + " "@
                + visitor.extra_fields@[0].0@ + "="@ + visitor.extra_fields@[0].1@ + "\n"@
        }),
{
    let head = timestamp@ + ":"@ + level_name(level) + "::"@ + target@ + ":"@;
    let message = match visitor.message {
        Some(text) => text@,
        None => Seq::empty(),
    };
    let fields = fields_view(visitor.extra_fields@);
    assert(line@ =~= head + message + fields_text(fields) + "\n"@);
    assert(line@.take((head + message).len() as int) =~= head + message);
    if visitor.extra_fields@.len() == 0 {
        assert(fields.len() == 0);
        assert(line@ =~= head + message + "\n"@);
    }
    if visitor.extra_fields@.len() == 1 {
        assert(fields.len() == 1);
        assert(fields.drop_last() =~= Seq::empty());
        assert(fields.last() == (visitor.extra_fields@[0].0@, visitor.extra_fields@[0].1@));
        reveal_with_fuel(fields_text, 2);
        assert(line@ =~= head + message + " "@ + visitor.extra_fields@[0].0@ + "="@
            + visitor.extra_fields@[0].1@ + "\n"@);
    }
}

/// One more field makes a line longer by that field alone, in front of its end.
pub proof fn law_field_lengthens_line(
    timestamp: &str,
    level: LogLevel,
    target: &str,
    shorter: &MessageVisitor,
    longer: &MessageVisitor,
    short_line: String,
    long_line: String,
)
    requires
        shorter.message == longer.message,
        longer.extra_fields@.len() == shorter.extra_fields@.len() + 1,
        longer.extra_fields@.drop_last() == shorter.extra_fields@,
        call_ensures(format_event, (timestamp, level, target, shorter), short_line),
        call_ensures(format_event, (timestamp, level, target, longer), long_line),
    ensures
        ({
            let field = longer.extra_fields@.last();
            &&& short_line@.len() > 0
            &&& long_line@ == short_line@.drop_last() + " "@ + field.0@ + "="@ + field.1@ + "\n"@
        }),
{
    reveal_strlit("\n");
    let before = fields_view(shorter.extra_fields@);
    let after = fields_view(longer.extra_fields@);
    assert(after.drop_last() =~= before);
    let field = longer.extra_fields@.last();
    assert(after.last() == (field.0@, field.1@));
    let whole = short_line@.drop_last();
    assert(short_line@ =~= whole + "\n"@);
    assert(long_line@ =~= whole + " "@ + field.0@ + "="@ + field.1@ + "\n"@);
}

/// What is put into a map is found under its key until it is taken out, and other
/// keys are not touched.
pub proof fn law_map_keeps<V: View>(
    filled: &mut StringMap<V>,
    emptied: &mut StringMap<V>,
    looked_at: &StringMap<V>,
    key: String,
    value: V,
    gone: &str,
    taken: Option<V>,
    found: Option<&V>,
    there: bool,
    other: Seq<char>,
)
    requires
        call_ensures(StringMap::<V>::insert, (filled, key, value), ()),
        call_ensures(StringMap::<V>::remove, (emptied, gone), taken),
        call_ensures(StringMap::<V>::get, (looked_at, gone), found),
        call_ensures(StringMap::<V>::contains_key, (looked_at, gone), there),
        other != key@,
        other != gone@,
    ensures
        final(filled)@.contains_key(key@) && final(filled)@[key@] == value@,
        final(filled)@.contains_key(other) <==> old(filled)@.contains_key(other),
        old(filled)@.contains_key(other) ==> final(filled)@[other] == old(filled)@[other],
        !final(emptied)@.contains_key(gone@),
        final(emptied)@.contains_key(other) <==> old(emptied)@.contains_key(other),
        old(emptied)@.contains_key(other) ==> final(emptied)@[other] == old(emptied)@[other],
        taken is Some <==> old(emptied)@.contains_key(gone@),
        taken matches Some(value) ==> value@ == old(emptied)@[gone@],
        there <==> looked_at@.contains_key(gone@),
        found is Some <==> there,
        found matches Some(value) ==> value@ == looked_at@[gone@],
{
}

} // verus!
