//! What the HTTP handlers answer with, and the stored records they convert.
use vstd::prelude::*;
use vstd::string::*;
use vstd::std_specs::convert::FromSpecImpl;
use crate::json::{string_list_spec, JsonValue};
use crate::text::string_views;

verus! {

/// A plain success answer with a message.
pub struct Success {
    pub message: String,
}

impl From<String> for Success {
    fn from(s: String) -> (r: Self) {
        Success { message: s }
    }
}

impl FromSpecImpl<String> for Success {
    open spec fn obeys_from_spec() -> bool {
        true
    }

    open spec fn from_spec(v: String) -> Self {
        Success { message: v }
    }
}

impl Success {
    /// A success answer with the message `s`.
    pub fn from_text(s: &str) -> (r: Self)
        ensures
            r.message@ == s@,
    {
        Success { message: String::from_str(s) }
    }
}

impl Default for Success {
    /// The answer `Success`.
    fn default() -> (r: Self)
        ensures
            r.message@ == "Success"@,
    {
        Success { message: String::from_str("Success") }
    }
}

/// A request that names something (an index to create).
pub struct NamedRequest {
    pub name: String,
}

/// How a report is delivered, as the database stores it.
#[derive(Debug, Clone, Copy, PartialEq, Eq, Structural)]
pub enum ReportSendType {
    Email,
    File,
}

/// How a report is delivered, as the API shows it.
#[derive(Debug, Clone, Copy, PartialEq, Eq, Structural)]
pub enum ReportType {
    Email,
    File,
}

pub open spec fn report_type_of(m: ReportSendType) -> ReportType {
    match m {
        ReportSendType::Email => ReportType::Email,
        ReportSendType::File => ReportType::File,
    }
}

impl From<ReportSendType> for ReportType {
    fn from(m: ReportSendType) -> (r: Self) {
        match m {
            ReportSendType::Email => ReportType::Email,
            ReportSendType::File => ReportType::File,
        }
    }
}

impl FromSpecImpl<ReportSendType> for ReportType {
    open spec fn obeys_from_spec() -> bool {
        true
    }

    open spec fn from_spec(v: ReportSendType) -> Self {
        report_type_of(v)
    }
}

/// A report as the database stores it. Identifiers are the UUIDs' 128 bits.
pub struct ReportModel {
    pub id: u128,
    pub cron: String,
    pub interval: Option<i32>,
    pub query: String,
    pub name: String,
    pub index: Option<u128>,
    pub send_type: Option<ReportSendType>,
    pub send_to: Option<String>,
    pub columns: Option<JsonValue>,
}

/// A report as the API shows it.
pub struct Report {
    pub id: u128,
    pub cron: String,
    pub interval: Option<i32>,
    pub query: String,
    pub name: String,
    pub index: u128,
    pub send_type: ReportType,
    pub send_to: String,
    pub columns: Vec<String>,
}

/// Whether a stored report's column list is an array of strings.
pub open spec fn columns_readable(m: ReportModel) -> bool {
    m.columns is Some && string_list_spec(m.columns->0) is Some
}

impl Report {
    /// The API form of a stored report: a missing index is the nil UUID, a
    /// missing delivery is a file, a missing destination is empty.
    pub fn from_model(m: ReportModel) -> (r: Report)
        requires
            columns_readable(m),
        ensures
            r.id == m.id,
            r.cron == m.cron,
            r.interval == m.interval,
            r.query == m.query,
            r.name == m.name,
            r.index == (match m.index {
                Some(i) => i,
                None => 0,
            }),
            r.send_type == (match m.send_type {
                Some(t) => report_type_of(t),
                None => ReportType::File,
            }),
            r.send_to@ == (match m.send_to {
                Some(s) => s@,
                None => Seq::<char>::empty(),
            }),
            string_list_spec(m.columns->0) == Some(string_views(r.columns@)),
    {
        let columns = match &m.columns {
            Some(c) => match c.string_list() {
                Some(l) => l,
                None => Vec::new(),
            },
            None => Vec::new(),
        };
        let index: u128 = match m.index {
            Some(i) => i,
            None => 0,
        };
        let send_type = match m.send_type {
            Some(t) => ReportType::from(t),
            None => ReportType::File,
        };
        let send_to = match m.send_to {
            Some(s) => s,
            None => String::new(),
        };
        Report {
            id: m.id,
            cron: m.cron,
            interval: m.interval,
            query: m.query,
            name: m.name,
            index,
            send_type,
            send_to,
            columns,
        }
    }
}

/// A moment with its UTC offset: seconds and nanoseconds since the epoch, and
/// the offset in seconds.
#[derive(Debug, Clone, Copy, PartialEq, Eq, Structural)]
pub struct Timestamp {
    pub seconds: i64,
    pub nanos: u32,
    pub offset_seconds: i32,
}

/// A stored log entry.
pub struct LogRecord {
    pub id: u128,
    pub timestamp: Option<Timestamp>,
    pub data: JsonValue,
}

/// A log entry as the search answers it.
pub struct LogResponse {
    pub timestamp: Timestamp,
    pub data: JsonValue,
}

impl LogResponse {
    /// The answer for a stored entry; an entry without a time shows `now`.
    pub fn from_record(m: LogRecord, now: Timestamp) -> (r: LogResponse)
        ensures
            r.timestamp == (match m.timestamp {
                Some(t) => t,
                None => now,
            }),
            r.data == m.data,
    {
        let timestamp = match m.timestamp {
            Some(t) => t,
            None => now,
        };
        LogResponse { timestamp, data: m.data }
    }
}

} // verus!
