//! The messages of the gRPC services and the decisions their handlers make.
use vstd::prelude::*;
use vstd::string::*;
use crate::ids::{hyphenated, uuid_string};
use crate::json::{is_json_document, parses_as_json};

verus! {

/// A log entry sent over gRPC: the index, a password, and the entry as JSON text.
pub struct Message {
    pub index: String,
    pub password: String,
    pub data: String,
}

/// The answer to a sent log entry.
pub struct ResultMessage {
    pub ok: bool,
}

/// The token of an administrator.
pub struct AdminAuth {
    pub token: String,
}

/// A log index: its id (hyphenated UUID) and name.
pub struct Index {
    pub id: String,
    pub name: String,
}

/// One stored entry of an index.
pub struct IndexRow {
    pub id: String,
    pub date: String,
    pub data: String,
}

/// A request for the list of indexes.
pub struct IndexListRequest {}

/// The list of indexes.
pub struct IndexListResponse {
    pub indexes: Vec<Index>,
}

/// A search in an index.
pub struct IndexSearchRequest {
    pub index: Option<Index>,
    pub from: String,
    pub to: Option<String>,
    pub take: Option<u64>,
    pub skip: Option<u64>,
    pub query: Option<String>,
}

/// The entries a search found.
pub struct IndexSearchResult {
    pub response: Vec<IndexRow>,
}

/// A gRPC failure status with its message.
pub enum RpcStatus {
    /// The request is malformed.
    InvalidArgument(String),
    /// The server failed.
    Internal(String),
}

/// A stored index: its id's 128 bits and its name, if it has one.
pub struct IndexRecord {
    pub id: u128,
    pub name: Option<String>,
}

/// Whether a sent entry is taken: its data must be a JSON document; otherwise
/// the request is an invalid argument.
pub fn check_message(m: &Message) -> (r: Result<(), RpcStatus>)
    ensures
        r is Ok <==> parses_as_json(m.data@),
        r matches Err(s) ==> (s matches RpcStatus::InvalidArgument(t) && t@
            == "Can`t convert json from data"@),
{
    let parsed = is_json_document(m.data.as_str());
    message_verdict(parsed)
}

/// The verdict on a sent entry once it is known whether its data reads as
/// JSON: taken, or an invalid argument.
pub fn message_verdict(parsed: bool) -> (r: Result<(), RpcStatus>)
    ensures
        r is Ok <==> parsed,
        r matches Err(s) ==> (s matches RpcStatus::InvalidArgument(t) && t@
            == "Can`t convert json from data"@),
{
    if parsed {
        Ok(())
    } else {
        Err(RpcStatus::InvalidArgument(String::from_str("Can`t convert json from data")))
    }
}

/// The answer once the entry was, or was not, stored.
pub fn insert_reply(stored: bool) -> (r: Result<ResultMessage, RpcStatus>)
    ensures
        stored ==> (r matches Ok(m) && m.ok),
        !stored ==> (r matches Err(s) && s matches RpcStatus::Internal(t) && t@
            == "Can`t insert value"@),
{
    if stored {
        Ok(ResultMessage { ok: true })
    } else {
        Err(RpcStatus::Internal(String::from_str("Can`t insert value")))
    }
}

pub open spec fn index_of_record(rec: IndexRecord) -> (Seq<char>, Seq<char>) {
    (hyphenated(rec.id), match rec.name {
        Some(n) => n@,
        None => Seq::<char>::empty(),
    })
}

/// Whether `r` lists the stored indexes `records`, in their order, each with
/// its hyphenated id and its name (empty where it has none).
pub open spec fn lists_records(r: IndexListResponse, records: Seq<IndexRecord>) -> bool {
    &&& r.indexes@.len() == records.len()
    &&& forall|i: int|
        0 <= i < records.len() ==> (#[trigger] r.indexes@[i]).id@ == index_of_record(records[i]).0
            && r.indexes@[i].name@ == index_of_record(records[i]).1
}

/// The list of indexes for the stored ones, in their order: each with its
/// hyphenated id and its name (empty where it has none).
pub fn index_list(records: &Vec<IndexRecord>) -> (r: IndexListResponse)
    ensures
        lists_records(r, records@),
{
    let mut indexes: Vec<Index> = Vec::new();
    let mut i: usize = 0;
    while i < records.len()
        invariant
            i <= records.len(),
            indexes@.len() == i,
            forall|k: int|
                0 <= k < i ==> (#[trigger] indexes@[k]).id@ == index_of_record(records@[k]).0
                    && indexes@[k].name@ == index_of_record(records@[k]).1,
        decreases records.len() - i,
    {
        let rec = &records[i];
        let id = uuid_string(rec.id);
        let name = match &rec.name {
            Some(n) => n.clone(),
            None => String::new(),
        };
        indexes.push(Index { id, name });
        i = i + 1;
    }
    IndexListResponse { indexes }
}

/// The answer to a request for the list of indexes, once the stored indexes
/// were read (`Ok`) or reading them failed with the given error text (`Err`):
/// the list, or an internal failure `Database error: <error>`.
pub fn index_list_reply(rows: Result<Vec<IndexRecord>, String>) -> (r: Result<
    IndexListResponse,
    RpcStatus,
>)
    ensures
        rows matches Ok(records) ==> (r matches Ok(resp) && lists_records(resp, records@)),
        rows matches Err(e) ==> (r matches Err(s) && s matches RpcStatus::Internal(t) && t@
            == "Database error: "@ + e@),
{
    match rows {
        Ok(records) => Ok(index_list(&records)),
        Err(e) => {
            let mut t = String::from_str("Database error: ");
            t.append(e.as_str());
            Err(RpcStatus::Internal(t))
        },
    }
}

/// The answer to a search: no entries (searching over gRPC is not offered).
pub fn search_reply(request: &IndexSearchRequest) -> (r: IndexSearchResult)
    ensures
        r.response@.len() == 0,
{
    IndexSearchResult { response: Vec::new() }
}

} // verus!
