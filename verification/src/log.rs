//! Records of user actions, sent to the Elasticsearch index of user actions.
use vstd::prelude::*;

verus! {

/// What a screen asks to log about one user action: the screen's name, the
/// text the user entered and optional extra details.
pub struct LogEntry {
    pub tab: String,
    pub user_input: String,
    pub metadata: Option<String>,
}

/// The text content of a [`LogEntry`].
#[verifier::ext_equal]
pub struct LogView {
    pub tab: Seq<char>,
    pub user_input: Seq<char>,
    pub metadata: Option<Seq<char>>,
}

/// The text content of an optional piece of text.
pub open spec fn opt_text(o: Option<String>) -> Option<Seq<char>> {
    match o {
        Some(s) => Some(s@),
        None => None,
    }
}

impl View for LogEntry {
    type V = LogView;

    open spec fn view(&self) -> LogView {
        LogView { tab: self.tab@, user_input: self.user_input@, metadata: opt_text(self.metadata) }
    }
}

/// The text content of an optional log entry.
pub open spec fn opt_log(o: Option<LogEntry>) -> Option<LogView> {
    match o {
        Some(e) => Some(e@),
        None => None,
    }
}

impl LogEntry {
    /// An entry for screen `tab` about the text `input`.
    pub fn new(tab: &str, input: &str, metadata: Option<String>) -> (r: LogEntry)
        ensures
            r@ == (LogView { tab: tab@, user_input: input@, metadata: opt_text(metadata) }),
    {
        LogEntry { tab: String::from_str(tab), user_input: String::from_str(input), metadata }
    }
}

/// A log entry as the index stores it, with the time of the action.
pub struct EsLog {
    pub timestamp: String,
    pub tab: String,
    pub user_input: String,
    pub metadata: Option<String>,
}

impl EsLog {
    /// The stored record of `entry`, made at `timestamp`.
    pub fn stamped(entry: LogEntry, timestamp: String) -> (r: EsLog)
        ensures
            r.timestamp == timestamp,
            r.tab == entry.tab,
            r.user_input == entry.user_input,
            r.metadata == entry.metadata,
    {
        EsLog {
            timestamp,
            tab: entry.tab,
            user_input: entry.user_input,
            metadata: entry.metadata,
        }
    }
}

} // verus!
