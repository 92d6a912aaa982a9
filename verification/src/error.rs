//! The error a request can end in, and the problem document that reports it.

use crate::json::{json_string, quote};
use crate::text::{decimal, push_decimal};
use vstd::prelude::*;

verus! {

/// The media type of a problem document.
pub const CONTENT_TYPE_PROBLEM: &'static str = "application/problem+json";

/// What a response carries in its body.
#[derive(Clone, Debug, PartialEq, Eq)]
pub enum Body {
    /// A text, complete.
    Text(String),
    /// The bytes of the pipe, pulled as the transport drains them.
    Stream,
}

/// A response, as far as this library decides it: status line, content type
/// and the kind of body.
#[derive(Clone, Debug, PartialEq, Eq)]
pub struct Response {
    pub status_code: u16,
    pub content_type: String,
    pub body: Body,
}

/// A recoverable error: its HTTP status, a short title, and the detail, which
/// carries a collaborator's message as it came.
#[derive(Clone, Debug, PartialEq, Eq)]
pub struct UQueryError {
    pub status_code: u16,
    pub title: String,
    pub detail: String,
}

/// The problem document: an object of the numeric `status`, the `title` and
/// the `detail`, in this order, without white space.
pub open spec fn problem_document(status: u16, title: Seq<char>, detail: Seq<char>) -> Seq<char> {
    "{\"status\":"@ + decimal(status as nat) + ",\"title\":"@ + json_string(title)
        + ",\"detail\":"@ + json_string(detail) + "}"@
}

impl UQueryError {
    /// The problem document of this error.
    pub open spec fn document(&self) -> Seq<char> {
        problem_document(self.status_code, self.title@, self.detail@)
    }

    /// Serialises the error as its problem document.
    pub fn to_json(&self) -> (r: String)
        ensures
            r@ == self.document(),
    {
        let mut out = String::from_str("{\"status\":");
        push_decimal(&mut out, self.status_code);
        out.append(",\"title\":");
        let title = quote(self.title.as_str());
        out.append(title.unwrap().as_str());
        out.append(",\"detail\":");
        let detail = quote(self.detail.as_str());
        out.append(detail.unwrap().as_str());
        out.append("}");
        out
    }

    /// The response that reports this error: its status, the problem media
    /// type, and the problem document as body.
    pub fn into_response(self) -> (r: Response)
        ensures
            r.status_code == self.status_code,
            r.content_type@ == CONTENT_TYPE_PROBLEM@,
            r.body matches Body::Text(text) && text@ == self.document(),
    {
        let body = self.to_json();
        Response {
            status_code: self.status_code,
            content_type: String::from_str(CONTENT_TYPE_PROBLEM),
            body: Body::Text(body),
        }
    }
}

} // verus!
