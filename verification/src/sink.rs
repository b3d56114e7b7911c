//! The sink writer's formatting: one self-describing line per record.

use vstd::prelude::*;
use vstd::string::StringExecFns;
use crate::level::LogLevels;
use crate::payload::{json_string, json_text, needs_no_escape, payload_text, quoted, text_payload};
use crate::record::LogObject;

verus! {

/// One line of output, without the line break: a JSON object with the keys
/// `level`, `timestamp` and `data` in this order. The level is its plain
/// upper-case name; `timestamp` and `data` are JSON texts.
pub open spec fn line_text(level: LogLevels, timestamp: Seq<char>, data: Seq<char>) -> Seq<char> {
    "{\"level\":\""@ + level.spec_name() + "\",\"timestamp\":"@ + timestamp + ",\"data\":"@ + data
        + "}"@
}

/// A timestamp as a JSON string: between double quotes as it stands where
/// it needs no escape, else as the JSON writer writes it.
pub open spec fn timestamp_json(timestamp: Seq<char>) -> Option<Seq<char>> {
    if needs_no_escape(timestamp) {
        Some(quoted(timestamp))
    } else {
        json_string(timestamp)
    }
}

/// The line a record is written as, or `None` where its timestamp or its
/// payload has no JSON text.
pub open spec fn record_line(log: LogObject) -> Option<Seq<char>> {
    match (timestamp_json(log.timestamp@), json_text(log.data)) {
        (Some(timestamp), Some(data)) => Some(line_text(log.log_level, timestamp, data)),
        _ => None,
    }
}

/// The lines of a batch, record by record.
pub open spec fn batch_lines(batch: Seq<LogObject>) -> Seq<Option<Seq<char>>> {
    Seq::new(batch.len(), |i: int| record_line(batch[i]))
}

/// The text of a rendered line.
pub open spec fn line_view(line: Option<String>) -> Option<Seq<char>> {
    match line {
        Some(s) => Some(s@),
        None => None,
    }
}

/// The texts of rendered lines.
pub open spec fn lines_view(lines: Seq<Option<String>>) -> Seq<Option<Seq<char>>> {
    Seq::new(lines.len(), |i: int| line_view(lines[i]))
}

/// Puts a line together from the level and from the JSON texts of the
/// timestamp and of the payload.
pub fn render_line(level: LogLevels, timestamp: &str, data: &str) -> (line: String)
    ensures
        line@ == line_text(level, timestamp@, data@),
{
    let mut line = String::from_str("{\"level\":\"");
    line.append(level.name());
    line.append("\",\"timestamp\":");
    line.append(timestamp);
    line.append(",\"data\":");
    line.append(data);
    line.append("}");
    line
}

/// Renders one record as a line. Gives `None` exactly where the timestamp
/// or the payload has no JSON text.
pub fn format_line(log: &LogObject) -> (line: Option<String>)
    ensures
        line_view(line) == record_line(*log),
{
    let timestamp = match payload_text(&text_payload(log.timestamp.as_str())) {
        Some(text) => text,
        None => {
            return None;
        },
    };
    match payload_text(&log.data) {
        Some(data) => Some(render_line(log.log_level, timestamp.as_str(), data.as_str())),
        None => None,
    }
}

/// Renders a batch: one entry per record, in the order of the batch.
pub fn flush_batch(batch: &[LogObject]) -> (lines: Vec<Option<String>>)
    ensures
        lines_view(lines@) == batch_lines(batch@),
{
    let mut lines: Vec<Option<String>> = Vec::new();
    let mut i: usize = 0;
    while i < batch.len()
        invariant
            i <= batch.len(),
            lines@.len() == i,
            forall|j: int| 0 <= j < i ==> line_view(#[trigger] lines@[j]) == record_line(batch@[j]),
        decreases batch.len() - i,
    {
        let line = format_line(&batch[i]);
        lines.push(line);
        i = i + 1;
    }
    assert(lines_view(lines@) =~= batch_lines(batch@));
    lines
}

} // verus!
