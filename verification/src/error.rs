//! Errors of talking to the Stash server.

use vstd::prelude::*;
use crate::text::{join, join_strings, owned, starts_with};

verus! {

/// Declares `reqwest::Error` to Verus as an opaque type, so that a request
/// error can carry it; nothing inside it is read.
#[verifier::external_type_specification]
#[verifier::external_body]
pub struct ExReqwestError(reqwest::Error);

/// Declares `serde_json::Error` to Verus as an opaque type, so that a
/// decoding error can carry it; nothing inside it is read.
#[verifier::external_type_specification]
#[verifier::external_body]
pub struct ExJsonError(serde_json::Error);

/// Errors of a request to the Stash server.
#[derive(Debug)]
pub enum StashError {
    /// The HTTP exchange failed.
    Http(reqwest::Error),
    /// The server answered with GraphQL errors; their messages.
    GraphQl(Vec<String>),
    /// What was looked up does not exist.
    NotFound(String),
    /// The answer did not decode.
    Json(serde_json::Error),
    /// The answer lacks a field.
    MissingField(&'static str),
}

/// The text of a `reqwest::Error`, by its `Display` impl. Trusted, not proved;
/// the contract states nothing of the text, which depends on the failed
/// request (URL, status, underlying I/O error).
#[verifier::external_body]
fn http_error_text(e: &reqwest::Error) -> String {
    e.to_string()
}

/// The text of a `serde_json::Error`, by its `Display` impl. Trusted, not
/// proved; the contract states nothing of the text, which depends on the
/// decoding failure (its kind and position).
#[verifier::external_body]
fn json_error_text(e: &serde_json::Error) -> String {
    e.to_string()
}

/// Whether `text` is the message of `e`: the prefix of the error's kind, then
/// its details (for an HTTP or a decoding failure, the outside crate's own
/// text, which is not stated here).
pub open spec fn describes(e: &StashError, text: Seq<char>) -> bool {
    match e {
        StashError::Http(_) => starts_with(text, "HTTP error: "@),
        StashError::GraphQl(m) => text == "GraphQL errors: "@ + join(m@.map_values(|s: String| s@), ", "@),
        StashError::NotFound(w) => text == "Not found: "@ + w@,
        StashError::Json(_) => starts_with(text, "JSON error: "@),
        StashError::MissingField(f) => text == "Missing field '"@ + f@ + "' in response"@,
    }
}

impl StashError {
    /// A `NotFound` error naming what was looked up.
    pub fn not_found(what: String) -> (r: Self)
        ensures
            r matches StashError::NotFound(w) && w@ == what@,
    {
        StashError::NotFound(what)
    }

    /// A `GraphQl` error with the given messages.
    pub fn graphql(msgs: Vec<String>) -> (r: Self)
        ensures
            r matches StashError::GraphQl(m) && m@ == msgs@,
    {
        StashError::GraphQl(msgs)
    }

    /// The message describing the error.
    pub fn to_string(&self) -> (r: String)
        ensures
            describes(self, r@),
    {
        match self {
            StashError::Http(e) => {
                let mut r = owned("HTTP error: ");
                let ghost prefix = r@;
                r.append(http_error_text(e).as_str());
                assert(r@.take(prefix.len() as int) =~= prefix);
                r
            },
            StashError::GraphQl(m) => {
                let mut r = owned("GraphQL errors: ");
                r.append(join_strings(m, ", ").as_str());
                r
            },
            StashError::NotFound(w) => {
                let mut r = owned("Not found: ");
                r.append(w.as_str());
                r
            },
            StashError::Json(e) => {
                let mut r = owned("JSON error: ");
                let ghost prefix = r@;
                r.append(json_error_text(e).as_str());
                assert(r@.take(prefix.len() as int) =~= prefix);
                r
            },
            StashError::MissingField(f) => {
                let mut r = owned("Missing field '");
                r.append(f);
                r.append("' in response");
                r
            },
        }
    }
}

} // verus!
