//! The messages a request path is made of, as `http` and `axum` hold them: the
//! header fields of a request, and the responses this crate answers with itself.
//!
//! The outside types are opaque to the verifier. What they hold is named by
//! [`header_fields`], [`value_bytes`], [`response_status`], [`response_fields`]
//! and [`response_body`], and the functions that read or make them are stated
//! over those names.

use axum::response::{IntoResponse, Response};
use http::header::{HeaderMap, HeaderValue, ToStrError, CONTENT_TYPE};
use http::StatusCode;
use vstd::prelude::*;
use vstd::utf8::encode_utf8;

verus! {

/// `http::request::Parts`, the head of a request. It is only carried: the
/// handlers an application supplies read it.
#[verifier::external_type_specification]
#[verifier::external_body]
pub struct ExParts(http::request::Parts);

/// `http::HeaderMap`, the header fields of a message.
#[verifier::external_type_specification]
#[verifier::external_body]
#[verifier::reject_recursive_types(T)]
pub struct ExHeaderMap<T>(http::header::HeaderMap<T>);

/// `http::HeaderValue`, the bytes of one field value.
#[verifier::external_type_specification]
#[verifier::external_body]
pub struct ExHeaderValue(http::header::HeaderValue);

/// The error of `HeaderValue::to_str`. It carries nothing.
#[verifier::external_type_specification]
#[verifier::external_body]
pub struct ExToStrError(http::header::ToStrError);

/// `http::Response`, a status, header fields and a body.
#[verifier::external_type_specification]
#[verifier::external_body]
#[verifier::reject_recursive_types(T)]
pub struct ExResponse<T>(http::Response<T>);

/// `axum::body::Body`, the body of a response.
#[verifier::external_type_specification]
#[verifier::external_body]
pub struct ExBody(axum::body::Body);

/// The fields that a lookup by name can reach in a header map: from each name,
/// in lower case, to its values in order.
pub uninterp spec fn header_fields(headers: HeaderMap<HeaderValue>) -> Map<
    Seq<char>,
    Seq<Seq<u8>>,
>;

/// The bytes a header value holds.
pub uninterp spec fn value_bytes(value: HeaderValue) -> Seq<u8>;

/// The status code of a response.
pub uninterp spec fn response_status(response: Response) -> u16;

/// The header fields of a response: from each name, in lower case, to its
/// values in order.
pub uninterp spec fn response_fields(response: Response) -> Map<Seq<char>, Seq<Seq<u8>>>;

/// The bytes the body of a response sends.
pub uninterp spec fn response_body(response: Response) -> Seq<u8>;

/// An ASCII capital in lower case, any other character as it is.
pub open spec fn lower_char(c: char) -> char {
    if 'A' <= c <= 'Z' {
        (c as u32 + 32) as char
    } else {
        c
    }
}

/// A header name as it is compared: without regard to ASCII case.
pub open spec fn lower(name: Seq<char>) -> Seq<char> {
    name.map_values(|c: char| lower_char(c))
}

/// Whether a byte of a field value is visible ASCII, a space or a tab.
pub open spec fn visible(byte: u8) -> bool {
    32 <= byte < 127 || byte == 9
}

/// A field value as text. There is none as soon as one byte is not visible.
pub open spec fn visible_text(bytes: Seq<u8>) -> Option<Seq<char>> {
    if forall|i: int| 0 <= i < bytes.len() ==> visible(#[trigger] bytes[i]) {
        Some(bytes.map_values(|byte: u8| byte as char))
    } else {
        None
    }
}

/// What [`request_header`] answers: the first value under the name, as text.
pub open spec fn header_text(fields: Map<Seq<char>, Seq<Seq<u8>>>, name: Seq<char>) -> Option<
    Seq<char>,
> {
    if fields.contains_key(lower(name)) {
        visible_text(fields[lower(name)][0])
    } else {
        None
    }
}

/// Calls `HeaderMap::get` with a name as text. It compares names without regard
/// to ASCII case and answers the first of several values; a text that is no
/// header name reaches no field.
#[verifier::external_body]
fn header_get<'a>(headers: &'a HeaderMap<HeaderValue>, name: &str) -> (found: Option<
    &'a HeaderValue,
>)
    ensures
        match found {
            Some(value) => {
                &&& header_fields(*headers).contains_key(lower(name@))
                &&& value_bytes(*value) == header_fields(*headers)[lower(name@)][0]
            },
            None => !header_fields(*headers).contains_key(lower(name@)),
        },
{
    headers.get(name)
}

/// `HeaderValue::to_str` answers the value as text if every byte of it is
/// visible ASCII, a space or a tab, and fails otherwise.
pub assume_specification[ HeaderValue::to_str ](value: &HeaderValue) -> (text: Result<
    &str,
    ToStrError,
>)
    ensures
        match text {
            Ok(text) => visible_text(value_bytes(*value)) == Some(text@),
            Err(_) => visible_text(value_bytes(*value)) is None,
        },
;

/// A request header by name, case-insensitively.
///
/// `None` when the header is absent, and when its value is not text. Of several
/// values the first counts.
pub fn request_header(headers: &HeaderMap<HeaderValue>, name: &str) -> (text: Option<String>)
    ensures
        match text {
            Some(text) => header_text(header_fields(*headers), name@) == Some(text@),
            None => header_text(header_fields(*headers), name@) is None,
        },
        text is Some <==> header_fields(*headers).contains_key(lower(name@)) && forall|i: int|
            0 <= i < header_fields(*headers)[lower(name@)][0].len() ==> {
                let byte = #[trigger] header_fields(*headers)[lower(name@)][0][i];
                32 <= byte < 127 || byte == 9
            },
        text is Some ==> {
            let bytes = header_fields(*headers)[lower(name@)][0];
            &&& text->0@.len() == bytes.len()
            &&& forall|i: int| 0 <= i < bytes.len() ==> #[trigger] text->0@[i] == bytes[i] as char
        },
{
    match header_get(headers, name) {
        None => None,
        Some(value) => match value.to_str() {
            Ok(text) => Some(text.to_owned()),
            Err(_) => None,
        },
    }
}

/// The header fields of a response that states its media type and nothing else.
pub open spec fn content_type(media_type: Seq<char>) -> Map<Seq<char>, Seq<Seq<u8>>> {
    map!["content-type"@ => seq![encode_utf8(media_type)]]
}

/// Whether a response is exactly this status, media type and text.
pub open spec fn is_reply(
    response: Response,
    status: u16,
    media_type: Seq<char>,
    text: Seq<char>,
) -> bool {
    &&& response_status(response) == status
    &&& response_fields(response) == content_type(media_type)
    &&& response_body(response) == encode_utf8(text)
}

/// Whether a response is plain text under a status.
pub open spec fn is_plain_text(response: Response, status: u16, text: Seq<char>) -> bool {
    is_reply(response, status, "text/plain; charset=utf-8"@, text)
}

/// Calls `IntoResponse::into_response` of `axum` on a status and a text. The
/// response has that status, the text as its body and, as its one field, the
/// media type that `axum` gives a text. A status code has three digits.
#[verifier::external_body]
fn text_response(status: u16, text: String) -> (response: Response)
    requires
        100 <= status <= 999,
    ensures
        response_status(response) == status,
        response_fields(response) == content_type("text/plain; charset=utf-8"@),
        response_body(response) == encode_utf8(text@),
{
    (StatusCode::from_u16(status).unwrap(), text).into_response()
}

/// Calls `IntoResponse::into_response` of `axum` on a status, a content type
/// and a text. The content type replaces the one that a text has by itself. A
/// status code has three digits, and a field value is visible ASCII.
#[verifier::external_body]
fn typed_response(status: u16, media_type: &str, text: &'static str) -> (response: Response)
    requires
        100 <= status <= 999,
        forall|i: int| 0 <= i < media_type@.len() ==> ' ' <= #[trigger] media_type@[i] <= '~',
    ensures
        response_status(response) == status,
        response_fields(response) == content_type(media_type@),
        response_body(response) == encode_utf8(text@),
{
    (StatusCode::from_u16(status).unwrap(), [(CONTENT_TYPE, media_type)], text).into_response()
}

/// The refusal a blocked visitor gets unless the application says otherwise.
pub open spec fn is_refusal(response: Response) -> bool {
    is_reply(response, 403, "application/json"@, "{\"error\":\"access denied\"}"@)
}

/// Answers `403` with one fixed JSON object.
pub fn refusal() -> (response: Response)
    ensures
        is_refusal(response),
        response_status(response) == 403,
        response_body(response) == encode_utf8("{\"error\":\"access denied\"}"@),
{
    proof {
        reveal_strlit("application/json");
    }
    typed_response(403, "application/json", "{\"error\":\"access denied\"}")
}

/// Answers `500` with the reason in plain text: a fault of the application's
/// own wiring or configuration, never of a visitor.
pub fn fault(reason: String) -> (response: Response)
    ensures
        is_plain_text(response, 500, reason@),
        response_status(response) == 500,
        response_body(response) == encode_utf8(reason@),
{
    text_response(500, reason)
}

} // verus!
