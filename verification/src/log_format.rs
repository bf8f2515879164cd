//! How tracing events are turned into server log lines: the filter
//! directive, the collection of event fields, the line format and the log
//! level each event level maps to.

use vstd::prelude::*;
use vstd::string::StringExecFns;

verus! {

/// The filter directive for a tracing level: `authz_core=<level>,pgauthz=<level>`.
pub open spec fn filter_directive(level: Seq<char>) -> Seq<char> {
    "authz_core="@ + level + ",pgauthz="@ + level
}

/// Builds the filter directive for a tracing level.
pub fn env_filter_directive(level: &str) -> (r: String)
    ensures
        r@ == filter_directive(level@),
{
    let mut s = String::from_str("authz_core=");
    s.append(level);
    s.append(",pgauthz=");
    s.append(level);
    s
}

/// The level of a tracing event.
#[derive(Debug, Clone, Copy, PartialEq, Eq, Structural)]
pub enum EventLevel {
    Error,
    Warn,
    Info,
    Debug,
    Trace,
}

/// The server log level an event is reported at.
#[derive(Debug, Clone, Copy, PartialEq, Eq, Structural)]
pub enum ServerLogLevel {
    Error,
    Warning,
    Info,
    Notice,
}

/// Errors and warnings keep their level, info stays info, and debug and
/// trace events are reported as notices.
pub fn server_log_level(level: EventLevel) -> (r: ServerLogLevel)
    ensures
        r == (match level {
            EventLevel::Error => ServerLogLevel::Error,
            EventLevel::Warn => ServerLogLevel::Warning,
            EventLevel::Info => ServerLogLevel::Info,
            EventLevel::Debug => ServerLogLevel::Notice,
            EventLevel::Trace => ServerLogLevel::Notice,
        }),
{
    match level {
        EventLevel::Error => ServerLogLevel::Error,
        EventLevel::Warn => ServerLogLevel::Warning,
        EventLevel::Info => ServerLogLevel::Info,
        EventLevel::Debug => ServerLogLevel::Notice,
        EventLevel::Trace => ServerLogLevel::Notice,
    }
}

/// The fields of one event: its message, the other fields as
/// `name=value` pairs joined by `, `, and the `cache_level` field if present.
pub struct EventFields {
    pub message: String,
    pub fields: String,
    pub cache_level: Option<String>,
}

/// The fields text after one more `name=value` pair is added.
pub open spec fn with_field(fields: Seq<char>, name: Seq<char>, value: Seq<char>) -> Seq<char> {
    if fields.len() == 0 {
        name + "="@ + value
    } else {
        fields + ", "@ + name + "="@ + value
    }
}

impl EventFields {
    /// No fields seen yet.
    pub fn new() -> (r: Self)
        ensures
            r.message@.len() == 0,
            r.fields@.len() == 0,
            r.cache_level is None,
    {
        EventFields { message: String::new(), fields: String::new(), cache_level: None }
    }

    /// Records one field, given its name and its rendered value: `message`
    /// sets the message, `cache_level` the cache level, and any other field
    /// is appended to the fields text.
    pub fn record(&mut self, name: &str, value: &str)
        ensures
            name@ == "message"@ ==> final(self).message@ == value@ && final(self).fields@ == old(self).fields@
                && final(self).cache_level == old(self).cache_level,
            name@ == "cache_level"@ ==> final(self).message@ == old(self).message@ && final(self).fields@ == old(
                self,
            ).fields@ && (final(self).cache_level matches Some(l) && l@ == value@),
            name@ != "message"@ && name@ != "cache_level"@ ==> final(self).message@ == old(self).message@
                && final(self).fields@ == with_field(old(self).fields@, name@, value@) && final(self).cache_level
                == old(self).cache_level,
    {
        proof {
            reveal_strlit("message");
            reveal_strlit("cache_level");
            assert("cache_level"@.len() != "message"@.len());
        }
        let n = String::from_str(name);
        if n == String::from_str("message") {
            self.message = String::from_str(value);
        } else if n == String::from_str("cache_level") {
            self.cache_level = Some(String::from_str(value));
        } else {
            if self.fields.as_str().is_empty() {
                let mut f = String::from_str(name);
                f.append("=");
                f.append(value);
                self.fields = f;
            } else {
                self.fields.append(", ");
                self.fields.append(name);
                self.fields.append("=");
                self.fields.append(value);
            }
        }
    }
}

/// The cache level a `cache_hit` event reports, when it carries one.
pub fn cache_hit_level(fields: &EventFields) -> (r: Option<String>)
    ensures
        r matches Some(l) ==> fields.message@ == "cache_hit"@ && (fields.cache_level matches Some(c) && l@ == c@),
        r is None ==> fields.message@ != "cache_hit"@ || fields.cache_level is None,
{
    if fields.message == String::from_str("cache_hit") {
        match &fields.cache_level {
            Some(level) => Some(level.clone()),
            None => None,
        }
    } else {
        None
    }
}

/// The log line for an event: `[target] module: message fields`, leaving out
/// the message or the fields (and their separator) when empty.
pub open spec fn log_line(target: Seq<char>, module: Seq<char>, message: Seq<char>, fields: Seq<char>) -> Seq<char> {
    let head = "["@ + target + "] "@ + module;
    if message.len() > 0 && fields.len() > 0 {
        head + ": "@ + message + " "@ + fields
    } else if message.len() > 0 {
        head + ": "@ + message
    } else if fields.len() > 0 {
        head + " "@ + fields
    } else {
        head
    }
}

/// Formats the log line for an event.
pub fn format_log_line(target: &str, module: &str, message: &str, fields: &str) -> (r: String)
    ensures
        r@ == log_line(target@, module@, message@, fields@),
{
    let mut line = String::from_str("[");
    line.append(target);
    line.append("] ");
    line.append(module);
    if !message.is_empty() && !fields.is_empty() {
        line.append(": ");
        line.append(message);
        line.append(" ");
        line.append(fields);
    } else if !message.is_empty() {
        line.append(": ");
        line.append(message);
    } else if !fields.is_empty() {
        line.append(" ");
        line.append(fields);
    }
    line
}

} // verus!
