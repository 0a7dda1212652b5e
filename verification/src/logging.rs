//! Standardized log-line composition: a fixed prefix, an RFC 3339
//! timestamp, a severity label, the reporting type's name and the message.
//! Printing the line is the caller's business; composing it is proved
//! here.

use vstd::prelude::*;

verus! {

/// Log severities, labelled as they are printed.
#[derive(Clone, Copy, Debug, PartialEq, Eq, Structural)]
pub enum LogLevel {
    Debug,
    Info,
    Warn,
    Error,
}

/// The printed label of a severity.
pub open spec fn spec_level_label(level: LogLevel) -> Seq<char> {
    match level {
        LogLevel::Debug => "DEBUG"@,
        LogLevel::Info => "INFO"@,
        LogLevel::Warn => "WARN"@,
        LogLevel::Error => "ERROR"@,
    }
}

impl LogLevel {
    /// The label this severity prints as.
    pub fn label(&self) -> (r: &'static str)
        ensures
            r@ == spec_level_label(*self),
    {
        match self {
            LogLevel::Debug => "DEBUG",
            LogLevel::Info => "INFO",
            LogLevel::Warn => "WARN",
            LogLevel::Error => "ERROR",
        }
    }
}

/// One log line, exactly as printed: `*** [timestamp] LEVEL\t- type - message`.
pub open spec fn spec_log_line(
    level: LogLevel,
    timestamp: Seq<char>,
    origin: Seq<char>,
    message: Seq<char>,
) -> Seq<char> {
    "*** ["@ + timestamp + "] "@ + spec_level_label(level) + "\t- "@ + origin + " - "@ + message
}

/// Compose one log line from its parts.
pub fn log_line(level: LogLevel, timestamp: &str, origin: &str, message: &str) -> (r: String)
    ensures
        r@ == spec_log_line(level, timestamp@, origin@, message@),
{
    let mut r = String::from_str("*** [");
    r.append(timestamp);
    r.append("] ");
    r.append(level.label());
    r.append("\t- ");
    r.append(origin);
    r.append(" - ");
    r.append(message);
    proof {
        assert(r@ =~= spec_log_line(level, timestamp@, origin@, message@));
    }
    r
}

/// Relies on `chrono::Utc::now` for the current instant and on
/// `chrono::DateTime::to_rfc3339_opts` for its RFC 3339 rendering with
/// millisecond precision and a numeric offset. The text depends on the
/// clock, so nothing is stated of it (and the clock call aborts on a
/// system time before the Unix epoch).
#[verifier::external_body]
pub fn get_timestamp() -> String {
    chrono::Utc::now().to_rfc3339_opts(chrono::SecondsFormat::Millis, false)
}

/// Compose a log line stamped with the current time: whatever the clock
/// read, the line is the stamped form of this level, type and message.
pub fn log(level: LogLevel, origin: &str, message: &str) -> (r: String)
    ensures
        exists|ts: Seq<char>| r@ == spec_log_line(level, ts, origin@, message@),
{
    let timestamp = get_timestamp();
    let r = log_line(level, timestamp.as_str(), origin, message);
    proof {
        assert(exists|ts: Seq<char>| r@ == spec_log_line(level, ts, origin@, message@)) by {
            assert(r@ == spec_log_line(level, timestamp@, origin@, message@));
        }
    }
    r
}

} // verus!
