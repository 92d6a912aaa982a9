//! The request handler's decisions: which format a request is answered in,
//! and which response follows from the outcome of its bridge.

use crate::bridge::StreamingOutcome;
use crate::error::{Body, Response, UQueryError};
use crate::format::{get_first_compatible_format, negotiated, text_of, QueryResponseFormat};
use crate::json::{json_string, lemma_plain_text_unchanged};
use crate::text::{decimal, lowercase, lowercase_chars, push_chars};
use vstd::prelude::*;

verus! {

/// The status of a response that streams a result.
pub const STATUS_OK: u16 = 200;

/// The status of a query that the engine refused.
pub const STATUS_BAD_REQUEST: u16 = 400;

/// The status of a request that accepts no supported format.
pub const STATUS_NOT_ACCEPTABLE: u16 = 406;

/// The title of a failed negotiation.
pub const TITLE_UNSUPPORTED_FORMAT: &'static str = "Unsupported response format";

/// The title of a failed query.
pub const TITLE_SQL_ERROR: &'static str = "SQL Error";

/// The detail of a failed negotiation: the accept list as the negotiation
/// read it, empty where the header was absent, between fixed words.
pub open spec fn unsupported_detail(accept: Option<Seq<char>>) -> Seq<char> {
    "format ["@ + (match accept {
        Some(value) => lowercase(value),
        None => Seq::empty(),
    }) + "] is not supported"@
}

/// Whether `error` is the one a failed negotiation over `accept` ends in.
pub open spec fn is_not_acceptable(error: UQueryError, accept: Option<Seq<char>>) -> bool {
    &&& error.status_code == STATUS_NOT_ACCEPTABLE
    &&& error.title@ == TITLE_UNSUPPORTED_FORMAT@
    &&& error.detail@ == unsupported_detail(accept)
}

/// Whether `error` is the one a query that failed with `message` ends in.
pub open spec fn is_bad_request(error: UQueryError, message: Seq<char>) -> bool {
    &&& error.status_code == STATUS_BAD_REQUEST
    &&& error.title@ == TITLE_SQL_ERROR@
    &&& error.detail@ == message
}

/// Whether `response` is the success response in `format`: status 200, the
/// format's media type, and the streamed body.
pub open spec fn is_stream_of(response: Response, format: QueryResponseFormat) -> bool {
    &&& response.status_code == STATUS_OK
    &&& response.content_type@ == format.media_type()
    &&& response.body == Body::Stream
}

/// Negotiates the format of a request from the value of its `Accept` header.
/// A request whose header is absent, or names nothing that is supported, is
/// not acceptable.
pub fn negotiate(accept: Option<&str>) -> (r: Result<QueryResponseFormat, UQueryError>)
    ensures
        negotiated(text_of(accept)) matches Some(format) ==> r == Ok::<
            QueryResponseFormat,
            UQueryError,
        >(format),
        negotiated(text_of(accept)) is None ==> (r matches Err(error) && is_not_acceptable(
            error,
            text_of(accept),
        )),
{
    match get_first_compatible_format(accept) {
        Some(format) => Ok(format),
        None => {
            let mut detail = String::from_str("format [");
            match accept {
                Some(value) => {
                    let folded = lowercase_chars(value);
                    push_chars(&mut detail, &folded);
                },
                None => {
                    assert(detail@ + Seq::<char>::empty() =~= detail@);
                },
            }
            detail.append("] is not supported");
            Err(
                UQueryError {
                    status_code: STATUS_NOT_ACCEPTABLE,
                    title: String::from_str(TITLE_UNSUPPORTED_FORMAT),
                    detail,
                },
            )
        },
    }
}

/// Decides the response once the outcome of the bridge is known: the
/// streamed success response in the negotiated format on `Ready`, and on
/// `Failed` the error that carries the message.
pub fn respond(outcome: StreamingOutcome, format: QueryResponseFormat) -> (r: Result<
    Response,
    UQueryError,
>)
    ensures
        outcome is Ready ==> (r matches Ok(response) && is_stream_of(response, format)),
        outcome matches StreamingOutcome::Failed(message) ==> (r matches Err(error)
            && is_bad_request(error, message@)),
{
    match outcome {
        StreamingOutcome::Ready => Ok(
            Response { status_code: STATUS_OK, content_type: format.to_string(), body: Body::Stream },
        ),
        StreamingOutcome::Failed(message) => Err(
            UQueryError {
                status_code: STATUS_BAD_REQUEST,
                title: String::from_str(TITLE_SQL_ERROR),
                detail: message,
            },
        ),
    }
}

/// The problem document of a query that failed with `message`, written out.
pub open spec fn bad_request_document(message: Seq<char>) -> Seq<char> {
    "{\"status\":400,\"title\":\"SQL Error\",\"detail\":"@ + json_string(message) + "}"@
}

/// The problem document of a failed negotiation over `accept`, written out.
pub open spec fn not_acceptable_document(accept: Option<Seq<char>>) -> Seq<char> {
    "{\"status\":406,\"title\":\"Unsupported response format\",\"detail\":"@ + json_string(
        unsupported_detail(accept),
    ) + "}"@
}

/// The error of a failed query is reported as a problem document of status
/// 400 and title `SQL Error` whose detail is the message of the failure,
/// as a JSON string: not empty where the message is not.
pub proof fn law_bad_request_document(error: UQueryError, message: Seq<char>)
    requires
        is_bad_request(error, message),
    ensures
        error.document() == bad_request_document(message),
        message.len() > 0 ==> error.detail@.len() > 0,
{
    reveal_strlit("{\"status\":");
    reveal_strlit(",\"title\":");
    reveal_strlit(",\"detail\":");
    reveal_strlit("SQL Error");
    reveal_strlit("{\"status\":400,\"title\":\"SQL Error\",\"detail\":");
    reveal_with_fuel(decimal, 3);
    lemma_plain_text_unchanged(TITLE_SQL_ERROR@);
    assert("{\"status\":"@ + decimal(400) + ",\"title\":"@ + json_string(TITLE_SQL_ERROR@)
        + ",\"detail\":"@ =~= "{\"status\":400,\"title\":\"SQL Error\",\"detail\":"@);
}

/// The error of a failed negotiation is reported as a problem document of
/// status 406 and title `Unsupported response format`.
pub proof fn law_not_acceptable_document(error: UQueryError, accept: Option<Seq<char>>)
    requires
        is_not_acceptable(error, accept),
    ensures
        error.document() == not_acceptable_document(accept),
{
    reveal_strlit("{\"status\":");
    reveal_strlit(",\"title\":");
    reveal_strlit(",\"detail\":");
    reveal_strlit("Unsupported response format");
    reveal_strlit("{\"status\":406,\"title\":\"Unsupported response format\",\"detail\":");
    reveal_with_fuel(decimal, 3);
    lemma_plain_text_unchanged(TITLE_UNSUPPORTED_FORMAT@);
    assert("{\"status\":"@ + decimal(406) + ",\"title\":"@ + json_string(
        TITLE_UNSUPPORTED_FORMAT@,
    ) + ",\"detail\":"@
        =~= "{\"status\":406,\"title\":\"Unsupported response format\",\"detail\":"@);
}

} // verus!
