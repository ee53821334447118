//! The fixed table from symbolic status keywords to numeric HTTP status codes.

use vstd::prelude::*;
use crate::text::str_eq;

verus! {

/// The numeric code for a status keyword, or `None` for a keyword outside the
/// closed sixteen-entry vocabulary.
pub open spec fn keyword_code(kw: Seq<char>) -> Option<u16> {
    if kw == "BadRequest"@ {
        Some(400u16)
    } else if kw == "Unauthorized"@ {
        Some(401u16)
    } else if kw == "Forbidden"@ {
        Some(403u16)
    } else if kw == "NotFound"@ {
        Some(404u16)
    } else if kw == "MethodNotAllowed"@ {
        Some(405u16)
    } else if kw == "Conflict"@ {
        Some(409u16)
    } else if kw == "Gone"@ {
        Some(410u16)
    } else if kw == "PayloadTooLarge"@ {
        Some(413u16)
    } else if kw == "UnsupportedMediaType"@ {
        Some(415u16)
    } else if kw == "UnprocessableEntity"@ {
        Some(422u16)
    } else if kw == "TooManyRequests"@ {
        Some(429u16)
    } else if kw == "InternalServerError"@ {
        Some(500u16)
    } else if kw == "NotImplemented"@ {
        Some(501u16)
    } else if kw == "BadGateway"@ {
        Some(502u16)
    } else if kw == "ServiceUnavailable"@ {
        Some(503u16)
    } else if kw == "GatewayTimeout"@ {
        Some(504u16)
    } else {
        None
    }
}

/// Every code in the table is a valid HTTP status code.
pub proof fn lemma_keyword_code_in_range(kw: Seq<char>)
    ensures
        keyword_code(kw) matches Some(c) ==> 100 <= c <= 599,
{
}

/// Looks a status keyword up in the fixed table.
pub fn resolve_keyword(kw: &str) -> (r: Option<u16>)
    ensures
        r == keyword_code(kw@),
{
    if str_eq(kw, "BadRequest") {
        Some(400)
    } else if str_eq(kw, "Unauthorized") {
        Some(401)
    } else if str_eq(kw, "Forbidden") {
        Some(403)
    } else if str_eq(kw, "NotFound") {
        Some(404)
    } else if str_eq(kw, "MethodNotAllowed") {
        Some(405)
    } else if str_eq(kw, "Conflict") {
        Some(409)
    } else if str_eq(kw, "Gone") {
        Some(410)
    } else if str_eq(kw, "PayloadTooLarge") {
        Some(413)
    } else if str_eq(kw, "UnsupportedMediaType") {
        Some(415)
    } else if str_eq(kw, "UnprocessableEntity") {
        Some(422)
    } else if str_eq(kw, "TooManyRequests") {
        Some(429)
    } else if str_eq(kw, "InternalServerError") {
        Some(500)
    } else if str_eq(kw, "NotImplemented") {
        Some(501)
    } else if str_eq(kw, "BadGateway") {
        Some(502)
    } else if str_eq(kw, "ServiceUnavailable") {
        Some(503)
    } else if str_eq(kw, "GatewayTimeout") {
        Some(504)
    } else {
        None
    }
}

} // verus!
