//! The errors that the HTTP handlers answer with.
use vstd::prelude::*;
use vstd::string::*;
use crate::text::{decimal, u64_text};

verus! {

/// The kind of a JSON error, as serde_json classifies it.
#[derive(Debug, PartialEq, Eq, Structural)]
pub enum JsonCategory {
    Io,
    Syntax,
    Data,
    Eof,
}

/// A failed request. Each variant keeps the `Debug` text of the error it
/// stands for; a JSON error keeps its kind and position too.
pub enum Error {
    Http { status: u16, detail: String },
    DB { detail: String },
    SyncBr { detail: String },
    Json { category: JsonCategory, line: usize, column: usize, detail: String },
    Sql { detail: String },
}

pub open spec fn category_name(c: JsonCategory) -> Seq<char> {
    match c {
        JsonCategory::Io => "Io"@,
        JsonCategory::Syntax => "Syntax"@,
        JsonCategory::Data => "Data"@,
        JsonCategory::Eof => "Eof"@,
    }
}

/// The first part of an error's message, which names its kind.
pub open spec fn heading(e: Error) -> Seq<char> {
    match e {
        Error::Http { .. } => "Http error: "@,
        Error::DB { .. } => "DB error: "@,
        Error::SyncBr { .. } => "Sync Broadcast error: "@,
        Error::Json { category, line, column, .. } => "Json error: "@ + category_name(category)
            + " in line "@ + decimal(line as nat) + " column "@ + decimal(column as nat) + ": "@,
        Error::Sql { .. } => "Sql build error:"@,
    }
}

/// The `Debug` text of the error: the variant's name and, in brackets, the
/// wrapped error's `Debug` text.
pub open spec fn debug_text(e: Error) -> Seq<char> {
    match e {
        Error::Http { detail, .. } => "Http("@ + detail@ + ")"@,
        Error::DB { detail } => "DB("@ + detail@ + ")"@,
        Error::SyncBr { detail } => "SyncBr("@ + detail@ + ")"@,
        Error::Json { detail, .. } => "Json("@ + detail@ + ")"@,
        Error::Sql { detail } => "Sql("@ + detail@ + ")"@,
    }
}

/// The HTTP status of the answer: an HTTP error keeps its own, a failed
/// broadcast is a server error (500), anything else a bad request (400).
pub open spec fn status_spec(e: Error) -> u16 {
    match e {
        Error::Http { status, .. } => status,
        Error::SyncBr { .. } => 500,
        _ => 400,
    }
}

impl Error {
    /// The HTTP status that answers this error.
    pub fn status_code(&self) -> (r: u16)
        ensures
            r == status_spec(*self),
    {
        match self {
            Error::Http { status, .. } => *status,
            Error::SyncBr { .. } => 500,
            _ => 400,
        }
    }

    /// The message that answers this error: its heading, then its `Debug` text.
    pub fn message(&self) -> (r: String)
        ensures
            r@ == heading(*self) + debug_text(*self),
    {
        let mut r = match self {
            Error::Http { .. } => String::from_str("Http error: "),
            Error::DB { .. } => String::from_str("DB error: "),
            Error::SyncBr { .. } => String::from_str("Sync Broadcast error: "),
            Error::Json { category, line, column, .. } => {
                let mut h = String::from_str("Json error: ");
                let name = match category {
                    JsonCategory::Io => "Io",
                    JsonCategory::Syntax => "Syntax",
                    JsonCategory::Data => "Data",
                    JsonCategory::Eof => "Eof",
                };
                h.append(name);
                h.append(" in line ");
                let l = u64_text(*line as u64);
                h.append(l.as_str());
                h.append(" column ");
                let c = u64_text(*column as u64);
                h.append(c.as_str());
                h.append(": ");
                h
            },
            Error::Sql { .. } => String::from_str("Sql build error:"),
        };
        let (name, detail) = match self {
            Error::Http { detail, .. } => ("Http(", detail),
            Error::DB { detail } => ("DB(", detail),
            Error::SyncBr { detail } => ("SyncBr(", detail),
            Error::Json { detail, .. } => ("Json(", detail),
            Error::Sql { detail } => ("Sql(", detail),
        };
        r.append(name);
        r.append(detail.as_str());
        r.append(")");
        r
    }
}

} // verus!
