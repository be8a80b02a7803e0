//! What is logged, and where to.
//!
//! Installing the subscriber and writing to files is left to the caller.

use crate::protocol::error::{is_other, Error};
use crate::util::text::{
    contains_subtext, decimal, decimal_text, has_subtext, join, optional_str, optional_text,
    same_text, trim, trimmed,
};
use vstd::prelude::*;

verus! {

/// The filter that applies where the environment gives none.
pub const DEFAULT_FILTER: &'static str = "contextvm_sdk=info,rmcp=warn";

/// What a subscriber says where one is installed already.
pub const ALREADY_SET: &'static str = "global default trace dispatcher has already been set";

/// The path of the log file, without the space around it; `None` where none is
/// given.
pub fn normalize_log_file_path(log_file_path: Option<&str>) -> (path: Option<String>)
    ensures
        optional_text(path) == match optional_str(log_file_path) {
            Some(given) => if trimmed(given).len() == 0 {
                None
            } else {
                Some(trimmed(given))
            },
            None => None,
        },
{
    match log_file_path {
        Some(given) => {
            let path = trim(given);
            if path.is_empty() {
                None
            } else {
                Some(path.to_owned())
            }
        },
        None => None,
    }
}

/// What comes of installing the subscriber: that one is installed already is no
/// failure.
pub fn subscriber_installed(attempt: Result<(), String>) -> (result: Result<(), Error>)
    ensures
        match attempt {
            Ok(_) => result is Ok,
            Err(text) => if has_subtext(text@, ALREADY_SET@) {
                result is Ok
            } else {
                is_other(result, "failed to initialize tracing subscriber: "@ + text@)
            },
        },
{
    match attempt {
        Ok(done) => Ok(done),
        Err(text) => if contains_subtext(text.as_str(), ALREADY_SET) {
            Ok(())
        } else {
            Err(Error::Other(join("failed to initialize tracing subscriber: ", text.as_str())))
        },
    }
}

/// What an event of the log says.
#[derive(Debug)]
pub struct MessageVisitor {
    pub message: Option<String>,
    pub extra_fields: Vec<(String, String)>,
}

/// The fields of an event of the log, as texts.
pub open spec fn fields_view(fields: Seq<(String, String)>) -> Seq<(Seq<char>, Seq<char>)> {
    fields.map_values(|field: (String, String)| (field.0@, field.1@))
}

impl Default for MessageVisitor {
    fn default() -> (visitor: Self)
        ensures
            visitor.message is None,
            visitor.extra_fields@.len() == 0,
    {
        MessageVisitor { message: None, extra_fields: Vec::new() }
    }
}

impl MessageVisitor {
    /// Takes one field: the message, or one of the others.
    pub fn record_field(&mut self, name: &str, value: String)
        ensures
            if name@ == "message"@ {
                &&& optional_text(final(self).message) == Some(value@)
                &&& final(self).extra_fields == old(self).extra_fields
            } else {
                &&& final(self).message == old(self).message
                &&& fields_view(final(self).extra_fields@) == fields_view(
                    old(self).extra_fields@,
                ).push((name@, value@))
            },
    {
        if same_text(name, "message") {
            self.message = Some(value);
        } else {
            self.extra_fields.push((name.to_owned(), value));
            proof {
                assert(fields_view(self.extra_fields@) =~= fields_view(
                    old(self).extra_fields@,
                ).push((name@, value@)));
            }
        }
    }
}

/// How severe an event of the log is.
#[derive(Debug, Clone, Copy, PartialEq, Eq, Structural)]
pub enum LogLevel {
    Error,
    Warn,
    Info,
    Debug,
    Trace,
}

impl LogLevel {
    /// The level as it is written.
    pub open spec fn text(self) -> Seq<char> {
        match self {
            LogLevel::Error => "error"@,
            LogLevel::Warn => "warn"@,
            LogLevel::Info => "info"@,
            LogLevel::Debug => "debug"@,
            LogLevel::Trace => "trace"@,
        }
    }

    /// The level as it is written.
    pub fn as_str(self) -> (text: &'static str)
        ensures
            text@ == self.text(),
    {
        match self {
            LogLevel::Error => "error",
            LogLevel::Warn => "warn",
            LogLevel::Info => "info",
            LogLevel::Debug => "debug",
            LogLevel::Trace => "trace",
        }
    }
}

/// The fields beside the message, each behind a space, as name and value.
pub open spec fn fields_text(fields: Seq<(Seq<char>, Seq<char>)>) -> Seq<char>
    decreases fields.len(),
{
    if fields.len() == 0 {
        Seq::empty()
    } else {
        fields_text(fields.drop_last()) + " "@ + fields.last().0 + "="@ + fields.last().1
    }
}

/// A line of the log.
pub open spec fn line_text(
    timestamp: Seq<char>,
    level: LogLevel,
    target: Seq<char>,
    message: Option<Seq<char>>,
    fields: Seq<(Seq<char>, Seq<char>)>,
) -> Seq<char> {
    timestamp + ":"@ + level.text() + "::"@ + target + ":"@ + (match message {
        Some(text) => text,
        None => Seq::empty(),
    }) + fields_text(fields) + "\n"@
}

/// Writes a line of the log.
pub fn format_event(timestamp: &str, level: LogLevel, target: &str, visitor: &MessageVisitor) -> (line:
    String)
    ensures
        line@ == line_text(
            timestamp@,
            level,
            target@,
            optional_text(visitor.message),
            fields_view(visitor.extra_fields@),
        ),
{
    let mut line = timestamp.to_owned();
    line.append(":");
    line.append(level.as_str());
    line.append("::");
    line.append(target);
    line.append(":");
    if let Some(message) = &visitor.message {
        line.append(message.as_str());
    }
    let ghost head = timestamp@ + ":"@ + level.text() + "::"@ + target@ + ":"@ + (
    match optional_text(visitor.message) {
        Some(text) => text,
        None => Seq::empty(),
    });
    proof {
        assert(line@ =~= head);
        assert(line@ =~= head + fields_text(fields_view(visitor.extra_fields@.take(0))));
    }
    let mut i: usize = 0;
    while i < visitor.extra_fields.len()
        invariant
            i <= visitor.extra_fields@.len(),
            line@ =~= head + fields_text(fields_view(visitor.extra_fields@.take(i as int))),
        decreases visitor.extra_fields@.len() - i,
    {
        line.append(" ");
        line.append(visitor.extra_fields[i].0.as_str());
        line.append("=");
        line.append(visitor.extra_fields[i].1.as_str());
        proof {
            let longer = fields_view(visitor.extra_fields@.take(i + 1));
            assert(longer.drop_last() =~= fields_view(visitor.extra_fields@.take(i as int)));
        }
        i = i + 1;
    }
    line.append("\n");
    proof {
        assert(visitor.extra_fields@.take(i as int) =~= visitor.extra_fields@);
    }
    line
}

/// A number below a thousand, with leading zeros.
pub open spec fn padded_text(number: nat) -> Seq<char> {
    if number < 10 {
        "00"@ + decimal_text(number)
    } else if number < 100 {
        "0"@ + decimal_text(number)
    } else {
        decimal_text(number)
    }
}

/// A moment as seconds and thousandths of a second.
pub open spec fn timestamp_text(secs: u64, millis: u32) -> Seq<char> {
    decimal_text(secs as nat) + "."@ + padded_text(millis as nat)
}

/// Writes a moment, given as seconds and thousandths of a second since the start
/// of 1970.
pub fn unix_timestamp(secs: u64, millis: u32) -> (text: String)
    ensures
        text@ == timestamp_text(secs, millis),
{
    let mut text = decimal(secs);
    text.append(".");
    if millis < 10 {
        text.append("00");
    } else if millis < 100 {
        text.append("0");
    }
    let digits = decimal(millis as u64);
    text.append(digits.as_str());
    proof {
        assert(text@ =~= timestamp_text(secs, millis));
    }
    text
}

} // verus!
