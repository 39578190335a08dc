//! Building the response that `tiny_http` sends.
//!
//! `tiny_http`'s header and response types are opaque to the verifier. What a
//! value of them holds is named by the spec functions below, and the three
//! calls this module makes into the crate are wrapped with contracts that are
//! taken on trust from its source.

use std::io::Cursor;
use tiny_http::{Header, Response};
use vstd::prelude::*;
use vstd::utf8::{encode_utf8, is_ascii_chars};

use crate::page::HTML_CONTENT_TYPE;

verus! {

/// `tiny_http::Header`: a field name and a value, both ASCII.
#[verifier::external_type_specification]
#[verifier::external_body]
pub struct ExHeader(tiny_http::Header);

/// `tiny_http::Response`: a status code, headers, and a reader of the body.
#[verifier::external_type_specification]
#[verifier::external_body]
#[verifier::reject_recursive_types(R)]
pub struct ExResponse<R>(tiny_http::Response<R>);

/// `std::io::Cursor`: the reader that `tiny_http` puts around a body held in
/// memory.
#[verifier::external_type_specification]
#[verifier::external_body]
#[verifier::reject_recursive_types(T)]
pub struct ExCursor<T>(std::io::Cursor<T>);

/// The field name of every header this module sets.
pub const CONTENT_TYPE: &'static str = "Content-Type";

/// The media type `tiny_http` gives a response made from a string.
pub const PLAIN_CONTENT_TYPE: &'static str = "text/plain; charset=UTF-8";

/// A header line: field name, then value.
pub type HeaderLine = (Seq<char>, Seq<char>);

/// The field name and the value that a `tiny_http::Header` holds.
pub uninterp spec fn header_line(header: Header) -> HeaderLine;

/// The status code of a response.
pub uninterp spec fn response_status(response: Response<Cursor<Vec<u8>>>) -> int;

/// The headers a response has been given, in the order in which it keeps them.
pub uninterp spec fn response_headers(response: Response<Cursor<Vec<u8>>>) -> Seq<HeaderLine>;

/// The bytes of a response's body.
pub uninterp spec fn response_body(response: Response<Cursor<Vec<u8>>>) -> Seq<u8>;

/// What `tiny_http` is to send for `body` served as `content_type`: status
/// 200, the one `Content-Type` header, and the body's UTF-8 bytes.
pub open spec fn is_text_response(
    response: Response<Cursor<Vec<u8>>>,
    body: Seq<char>,
    content_type: Seq<char>,
) -> bool {
    &&& response_status(response) == 200
    &&& response_headers(response) == seq![(CONTENT_TYPE@, content_type)]
    &&& response_body(response) == encode_utf8(body)
}

/// `tiny_http::Header::from_bytes` on the bytes of two strings. It succeeds
/// exactly when both are ASCII, and the header then holds them unchanged.
#[verifier::external_body]
fn header_from_bytes(field: &str, value: &str) -> (parsed: Result<Header, ()>)
    ensures
        parsed.is_ok() <==> (is_ascii_chars(field@) && is_ascii_chars(value@)),
        parsed matches Ok(header) ==> header_line(header) == (field@, value@),
{
    Header::from_bytes(field.as_bytes(), value.as_bytes())
}

/// `tiny_http::Response::from_string`: status 200, a single `Content-Type`
/// header that says plain text, and the string's bytes as the body.
#[verifier::external_body]
fn response_from_string(data: &str) -> (response: Response<Cursor<Vec<u8>>>)
    ensures
        response_status(response) == 200,
        response_headers(response) == seq![(CONTENT_TYPE@, PLAIN_CONTENT_TYPE@)],
        response_body(response) == encode_utf8(data@),
{
    Response::from_string(data)
}

/// `tiny_http::Response::with_header`, for a `Content-Type` header given to a
/// response whose only header is one already: the value is overwritten in
/// place, and status and body stay.
#[verifier::external_body]
fn response_with_content_type(response: Response<Cursor<Vec<u8>>>, header: Header) -> (replaced:
    Response<Cursor<Vec<u8>>>)
    requires
        header_line(header).0 == CONTENT_TYPE@,
        response_headers(response).len() == 1,
        response_headers(response)[0].0 == CONTENT_TYPE@,
    ensures
        response_status(replaced) == response_status(response),
        response_headers(replaced) == seq![(CONTENT_TYPE@, header_line(header).1)],
        response_body(replaced) == response_body(response),
{
    response.with_header(header)
}

/// A 200 response that carries `body` under the media type `content_type`,
/// or `None` when `content_type` is not ASCII and so cannot stand in a header.
pub fn text_response(body: &str, content_type: &str) -> (built: Option<Response<Cursor<Vec<u8>>>>)
    ensures
        built.is_some() <==> is_ascii_chars(content_type@),
        built matches Some(response) ==> is_text_response(response, body@, content_type@),
{
    proof {
        lemma_content_type_is_ascii();
    }
    match header_from_bytes(CONTENT_TYPE, content_type) {
        Ok(header) => {
            let plain = response_from_string(body);
            Some(response_with_content_type(plain, header))
        },
        Err(_) => None,
    }
}

/// The 200 response that carries `body` as an HTML page.
pub fn html_response(body: &str) -> (response: Response<Cursor<Vec<u8>>>)
    ensures
        is_text_response(response, body@, HTML_CONTENT_TYPE@),
{
    proof {
        lemma_html_content_type_is_ascii();
    }
    match text_response(body, HTML_CONTENT_TYPE) {
        Some(response) => response,
        None => vstd::pervasive::unreached(),
    }
}

/// The header's field name is ASCII.
proof fn lemma_content_type_is_ascii()
    ensures
        is_ascii_chars(CONTENT_TYPE@),
{
    reveal_strlit("Content-Type");
}

/// The HTML media type is ASCII, so a header can always be made of it.
proof fn lemma_html_content_type_is_ascii()
    ensures
        is_ascii_chars(HTML_CONTENT_TYPE@),
{
    reveal_strlit("text/html; charset=utf-8");
}

} // verus!
