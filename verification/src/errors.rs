//! The error type of all library operations.
use vstd::prelude::*;
use crate::text::{push_decimal, push_str, decimal};

verus! {

/// Error of a Zotero operation. Causes that come from outside (transport,
/// files, databases, decoding) are carried as their messages.
#[derive(Debug, Clone, PartialEq, Eq)]
pub enum ZoteroApiError {
    /// Network or HTTP transport failure.
    Network(String),
    /// The Local API answered with a non-2xx status.
    LocalApi { status: u16, message: String },
    /// The object changed since the version sent with a write (HTTP 412).
    VersionConflict(String),
    /// Better BibTeX answered with an error or an invalid response.
    BetterBibTeX(String),
    /// Better Notes answered with an error or an invalid response.
    BetterNotes(String),
    /// PDF text extraction failed.
    PdfExtract(String),
    /// Embedding generation failed.
    Embedding(String),
    /// File system failure.
    Io(String),
    /// The local database could not be located or read.
    LocalDb(String),
    /// A SQLite query or connection failed.
    Sqlite(String),
    /// A write was refused by the security policy.
    PermissionDenied(String),
    /// User input failed the security policy.
    InputRejected(String),
    /// The requested object does not exist (HTTP 404).
    NotFound(String),
    /// A JSON document could not be encoded or decoded.
    Json(String),
}

/// `r` is the refusal of an input, with message `msg`.
pub open spec fn rejects<T>(r: Result<T, ZoteroApiError>, msg: Seq<char>) -> bool {
    r matches Err(ZoteroApiError::InputRejected(m)) && m@ == msg
}

impl ZoteroApiError {
    /// The human-readable message of an error.
    pub open spec fn message_spec(self) -> Seq<char> {
        match self {
            ZoteroApiError::Network(m) => "Network error: "@ + m@,
            ZoteroApiError::LocalApi { status, message } => "Local API error: HTTP "@ + decimal(
                status as nat,
            ) + " - "@ + message@,
            ZoteroApiError::VersionConflict(m) => "Version conflict: "@ + m@,
            ZoteroApiError::BetterBibTeX(m) => "Better BibTeX error: "@ + m@,
            ZoteroApiError::BetterNotes(m) => "Better Notes error: "@ + m@,
            ZoteroApiError::PdfExtract(m) => "PDF extraction error: "@ + m@,
            ZoteroApiError::Embedding(m) => "Embedding error: "@ + m@,
            ZoteroApiError::Io(m) => "IO error: "@ + m@,
            ZoteroApiError::LocalDb(m) => "Local database error: "@ + m@,
            ZoteroApiError::Sqlite(m) => "SQLite error: "@ + m@,
            ZoteroApiError::PermissionDenied(m) => "Permission denied: "@ + m@,
            ZoteroApiError::InputRejected(m) => "Input rejected: "@ + m@,
            ZoteroApiError::NotFound(m) => "Item not found: "@ + m@,
            ZoteroApiError::Json(m) => "JSON serialization error: "@ + m@,
        }
    }

    /// The human-readable message of an error.
    pub fn message(&self) -> (r: String)
        ensures
            r@ == self.message_spec(),
    {
        let mut out = String::new();
        let (prefix, m): (&str, &String) = match self {
            ZoteroApiError::Network(m) => ("Network error: ", m),
            ZoteroApiError::LocalApi { status, message } => {
                push_str(&mut out, "Local API error: HTTP ");
                push_decimal(&mut out, *status as u64);
                push_str(&mut out, " - ");
                push_str(&mut out, message.as_str());
                assert(out@ == self.message_spec());
                return out;
            },
            ZoteroApiError::VersionConflict(m) => ("Version conflict: ", m),
            ZoteroApiError::BetterBibTeX(m) => ("Better BibTeX error: ", m),
            ZoteroApiError::BetterNotes(m) => ("Better Notes error: ", m),
            ZoteroApiError::PdfExtract(m) => ("PDF extraction error: ", m),
            ZoteroApiError::Embedding(m) => ("Embedding error: ", m),
            ZoteroApiError::Io(m) => ("IO error: ", m),
            ZoteroApiError::LocalDb(m) => ("Local database error: ", m),
            ZoteroApiError::Sqlite(m) => ("SQLite error: ", m),
            ZoteroApiError::PermissionDenied(m) => ("Permission denied: ", m),
            ZoteroApiError::InputRejected(m) => ("Input rejected: ", m),
            ZoteroApiError::NotFound(m) => ("Item not found: ", m),
            ZoteroApiError::Json(m) => ("JSON serialization error: ", m),
        };
        push_str(&mut out, prefix);
        push_str(&mut out, m.as_str());
        assert(out@ == self.message_spec());
        out
    }
}

} // verus!
