//! The record: one log event as it travels from producer to sink.

use vstd::prelude::*;
use crate::clock::{get_current_time, timestamp_text};
use crate::level::LogLevels;
use crate::payload::{json_text, needs_no_escape, quoted, text_payload};

verus! {

/// One log event: written once when it is submitted, never changed after.
pub struct LogObject {
    /// Severity of the event.
    pub log_level: LogLevels,
    /// The structured payload.
    pub data: serde_json::Value,
    /// When the event was submitted, as ISO-8601 UTC text.
    pub timestamp: String,
}

impl LogObject {
    /// The record of an event of the given level and payload, submitted at
    /// the given time.
    pub fn new(log_level: LogLevels, data: serde_json::Value, timestamp: String) -> (log: Self)
        ensures
            log == (LogObject { log_level, data, timestamp }),
    {
        LogObject { log_level, data, timestamp }
    }
}

impl Default for LogObject {
    /// A record at level `INFO`, stamped with the current time, whose
    /// payload is the string `not set`.
    fn default() -> (log: Self)
        ensures
            log.log_level == LogLevels::Info,
            json_text(log.data) == Some("\"not set\""@),
            exists|reading: Option<(u64, u32)>| log.timestamp@ == #[trigger] timestamp_text(reading),
    {
        proof {
            reveal_strlit("not set");
            reveal_strlit("\"");
            reveal_strlit("\"not set\"");
            assert(needs_no_escape("not set"@));
            assert(quoted("not set"@) =~= "\"not set\""@);
        }
        LogObject {
            log_level: LogLevels::Info,
            data: text_payload("not set"),
            timestamp: get_current_time(),
        }
    }
}

} // verus!
