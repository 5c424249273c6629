//! The events that the collector's tasks pass to each other.
use vstd::prelude::*;
use vstd::string::*;
use crate::ids::{hyphenated, uuid_string};
use crate::schemes::{log_message_text, LogMessage};
use crate::text::{i64_text, signed_decimal};

verus! {

/// An event on the collector's bus.
#[allow(inconsistent_fields)]
#[derive(Clone, Debug)]
pub enum Events {
    /// A tick of the timer with the given id.
    Ticker { id: i64 },
    /// A log message arrived for an index.
    NewMessage { index: String, message: LogMessage },
    /// The structure of an index is to be collected again.
    ReIndex { index: String },
    /// A report (by id) was created.
    NewReport { index: u128 },
}

/// How an event reads in the log.
pub open spec fn event_text(e: Events) -> Seq<char> {
    "Event: "@ + match e {
        Events::Ticker { id } => "Ticker: "@ + signed_decimal(id as int),
        Events::NewMessage { index, message } => "New Message index: "@ + index@ + " message:"@
            + log_message_text(message.index@, message.data@),
        Events::ReIndex { index } => "Reindex index "@ + index@,
        Events::NewReport { index } => "New report "@ + hyphenated(index),
    }
}

impl Events {
    /// How the event reads in the log.
    pub fn describe(&self) -> (r: String)
        ensures
            r@ == event_text(*self),
    {
        let mut r = String::from_str("Event: ");
        match self {
            Events::Ticker { id } => {
                r.append("Ticker: ");
                let t = i64_text(*id);
                r.append(t.as_str());
            },
            Events::NewMessage { index, message } => {
                r.append("New Message index: ");
                r.append(index.as_str());
                r.append(" message:");
                let m = message.describe();
                r.append(m.as_str());
            },
            Events::ReIndex { index } => {
                r.append("Reindex index ");
                r.append(index.as_str());
            },
            Events::NewReport { index } => {
                r.append("New report ");
                let t = uuid_string(*index);
                r.append(t.as_str());
            },
        }
        r
    }

    /// The index named by a re-index event; other events are ignored by the
    /// re-indexing task.
    pub fn reindex_target(&self) -> (r: Option<&String>)
        ensures
            r matches Some(i) ==> *self == (Events::ReIndex { index: *i }),
            r is None <==> !(*self is ReIndex),
    {
        match self {
            Events::ReIndex { index } => Some(index),
            _ => None,
        }
    }

    /// The report named by a new-report event; other events are ignored by the
    /// report task.
    pub fn new_report_target(&self) -> (r: Option<u128>)
        ensures
            r matches Some(i) ==> *self == (Events::NewReport { index: i }),
            r is None <==> !(*self is NewReport),
    {
        match self {
            Events::NewReport { index } => Some(*index),
            _ => None,
        }
    }
}

} // verus!
