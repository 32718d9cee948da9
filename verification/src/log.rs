//! Log entries: what the engine reports, and how seriously.

use vstd::prelude::*;
use vstd::string::*;

verus! {

/// How serious a log entry is: `Local` for an expected skip, `Severe` for a failure.
#[derive(Debug, Clone, Copy, PartialEq, Eq)]
pub enum Level {
    Local,
    Info,
    Severe,
}

/// A message for the log.
#[derive(Debug, PartialEq, Eq)]
pub struct LogEntry {
    pub level: Level,
    pub message: String,
}

/// What a `LogEntry` holds.
pub struct LogEntryView {
    pub level: Level,
    pub message: Seq<char>,
}

impl View for LogEntry {
    type V = LogEntryView;

    open spec fn view(&self) -> LogEntryView {
        LogEntryView { level: self.level, message: self.message@ }
    }
}

/// The view of an entry that may be absent.
pub open spec fn entry_view(entry: Option<LogEntry>) -> Option<LogEntryView> {
    match entry {
        Some(e) => Some(e@),
        None => None,
    }
}

/// The `Severe` entry whose message is a prefix followed by a detail.
pub open spec fn severe_entry(prefix: Seq<char>, detail: Seq<char>) -> LogEntryView {
    LogEntryView { level: Level::Severe, message: prefix + detail }
}

/// Builds a `Severe` entry from a prefix and a detail.
pub fn severe(prefix: &str, detail: &str) -> (entry: LogEntry)
    ensures
        entry@ == severe_entry(prefix@, detail@),
{
    let mut message = String::from_str(prefix);
    message.append(detail);
    LogEntry { level: Level::Severe, message }
}

/// Reports a joined document that does not have the shape of an event. Such a document
/// is passed over and stays unmarked.
pub fn undecodable(error: &str) -> (entry: LogEntry)
    ensures
        entry@ == severe_entry("Error parsing doc: "@, error@),
{
    severe("Error parsing doc: ", error)
}

/// Reports a failure of the store while it hands out the resolved documents.
pub fn unreadable(error: &str) -> (entry: LogEntry)
    ensures
        entry@ == severe_entry("Error while processing: "@, error@),
{
    severe("Error while processing: ", error)
}

/// Reports a failure of the bulk insert of markers.
pub fn insert_failed(error: &str) -> (entry: LogEntry)
    ensures
        entry@ == severe_entry("Error inserting into 'processed' collection: "@, error@),
{
    severe("Error inserting into 'processed' collection: ", error)
}

} // verus!
