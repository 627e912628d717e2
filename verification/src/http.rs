//! The embedded HTTP endpoint: one request per connection, three routes.
//!
//! Only the path of the request line is read. Headers, bodies, keep-alive
//! and chunked transfer are ignored on purpose.

use crate::lines::{lines_of, split_lines};
use crate::template::{DEFAULT_TEMPLATE, UPDATE_TIME_TOKEN, VERSION_TOKEN};
use crate::text::{
    chars_of, decimal, push_decimal, push_text, replace_all, replace_text, rows, same_text,
    split_tokens, string_of, tokens_of,
};
use vstd::prelude::*;
use vstd::utf8::{decode_utf8, encode_utf8, valid_utf8};

verus! {

/// The most bytes of a request that are read from a connection.
pub const REQUEST_BUFFER_SIZE: usize = 4096;

/// The text that `String::from_utf8_lossy` decodes from `bytes`.
pub uninterp spec fn lossy_text(bytes: Seq<u8>) -> Seq<char>;

/// Decodes `bytes` with `String::from_utf8_lossy`, which replaces what is
/// not UTF-8. Trusted: the text is what [`lossy_text`] names, and bytes
/// that are valid UTF-8 decode to the text they encode.
#[verifier::external_body]
pub(crate) fn decode_lossy(bytes: &[u8]) -> (text: String)
    ensures
        text@ == lossy_text(bytes@),
        valid_utf8(bytes@) ==> text@ == decode_utf8(bytes@),
{
    String::from_utf8_lossy(bytes).into_owned()
}

/// The three things the endpoint serves.
#[derive(Debug, Clone, Copy, PartialEq, Eq, Structural)]
pub enum Route {
    /// `/hosts.txt`: the text artifact.
    HostsText,
    /// `/hosts.json`: the structured artifact.
    HostsJson,
    /// Any other path: the status page.
    StatusPage,
}

/// What is published at the time of a request: the two artifacts, where a
/// server cycle has written them, and the custom status page template,
/// where one is configured and readable.
#[derive(Debug, PartialEq, Eq)]
pub struct Published {
    pub text: Option<String>,
    pub json: Option<String>,
    pub template: Option<String>,
}

/// The value of a read, or `None` where the read failed.
pub open spec fn read_text(read: Result<String, String>) -> Option<Seq<char>> {
    match read {
        Ok(text) => Some(text@),
        Err(_) => None,
    }
}

/// The text of an optional string.
pub open spec fn option_text(value: Option<String>) -> Option<Seq<char>> {
    match value {
        Some(text) => Some(text@),
        None => None,
    }
}

impl Published {
    /// What is published, from what reading the two artifacts and the
    /// custom template returned. An artifact that cannot be read is not
    /// there yet. The custom template counts only where a path is
    /// configured and the file can be read.
    pub fn from_reads(
        text: Result<String, String>,
        json: Result<String, String>,
        template_path: &str,
        template: Result<String, String>,
    ) -> (published: Published)
        ensures
            option_text(published.text) == read_text(text),
            option_text(published.json) == read_text(json),
            option_text(published.template) == if template_path@.len() == 0 {
                None
            } else {
                read_text(template)
            },
    {
        Published {
            text: match text {
                Ok(t) => Some(t),
                Err(_) => None,
            },
            json: match json {
                Ok(j) => Some(j),
                Err(_) => None,
            },
            template: if template_path.is_empty() {
                None
            } else {
                match template {
                    Ok(t) => Some(t),
                    Err(_) => None,
                }
            },
        }
    }
}

/// A response: status line, content type and body.
#[derive(Debug, PartialEq, Eq)]
pub struct Response {
    pub status: &'static str,
    pub content_type: &'static str,
    pub body: String,
}

/// The path of a request: the second word of its first line, or `/` where
/// there is none.
pub open spec fn path_in(request: Seq<char>) -> Seq<char> {
    let lines = split_lines(request);
    if lines.len() > 0 && split_tokens(lines[0]).len() >= 2 {
        split_tokens(lines[0])[1]
    } else {
        "/"@
    }
}

/// The route of a path.
pub open spec fn route_of(path: Seq<char>) -> Route {
    if path == "/hosts.txt"@ {
        Route::HostsText
    } else if path == "/hosts.json"@ {
        Route::HostsJson
    } else {
        Route::StatusPage
    }
}

/// The status page: `template` with the version token and then the update
/// time token replaced.
pub open spec fn status_page(template: Seq<char>, version: Seq<char>, updated: Seq<char>) -> Seq<
    char,
> {
    replace_all(replace_all(template, VERSION_TOKEN@, version), UPDATE_TIME_TOKEN@, updated)
}

/// The content type of a route.
pub open spec fn content_type_of(route: Route) -> Seq<char> {
    match route {
        Route::HostsText => "text/plain"@,
        Route::HostsJson => "application/json"@,
        Route::StatusPage => "text/html; charset=utf-8"@,
    }
}

/// The text of an optional string, or `fallback`.
pub open spec fn text_or(value: Option<String>, fallback: Seq<char>) -> Seq<char> {
    match value {
        Some(s) => s@,
        None => fallback,
    }
}

/// The body that a route serves.
pub open spec fn body_of(route: Route, published: Published, version: Seq<char>, now: Seq<char>)
    -> Seq<char> {
    match route {
        Route::HostsText => text_or(published.text, "# no hosts yet"@),
        Route::HostsJson => text_or(published.json, "[]"@),
        Route::StatusPage => status_page(
            text_or(published.template, DEFAULT_TEMPLATE@),
            version,
            now,
        ),
    }
}

/// The bytes of a response on the wire. The content length counts the bytes
/// of the body.
pub open spec fn response_text(status: Seq<char>, content_type: Seq<char>, body: Seq<char>) -> Seq<
    char,
> {
    "HTTP/1.1 "@ + status + "\r\nContent-Type: "@ + content_type + "\r\nContent-Length: "@
        + decimal(encode_utf8(body).len()) + "\r\nAccess-Control-Allow-Origin: *\r\n\r\n"@ + body
}

/// The address on which the endpoint listens: every interface, at `port`.
pub fn listen_address(port: u16) -> (address: String)
    ensures
        address@ == "0.0.0.0:"@ + decimal(port as nat),
{
    let mut out: Vec<char> = Vec::new();
    push_text(&mut out, "0.0.0.0:");
    push_decimal(&mut out, port as u64);
    string_of(&out)
}

/// The path that a request asks for.
pub fn request_path(request: &str) -> (path: String)
    ensures
        path@ == path_in(request@),
{
    let text = chars_of(request);
    let lines = lines_of(&text);
    if lines.len() > 0 {
        assert(rows(lines@)[0] == lines[0]@);
        let words = tokens_of(&lines[0]);
        if words.len() >= 2 {
            assert(rows(words@)[1] == words[1]@);
            return string_of(&words[1]);
        }
    }
    "/".to_owned()
}

/// The route that serves `path`.
pub fn route(path: &str) -> (r: Route)
    ensures
        r == route_of(path@),
{
    let p = chars_of(path);
    let text = chars_of("/hosts.txt");
    let json = chars_of("/hosts.json");
    if same_text(&p, &text) {
        Route::HostsText
    } else if same_text(&p, &json) {
        Route::HostsJson
    } else {
        Route::StatusPage
    }
}

/// The status page for `template`.
pub fn render_status_page(template: &str, version: &str, updated: &str) -> (page: String)
    ensures
        page@ == status_page(template@, version@, updated@),
{
    let t = chars_of(template);
    let first = replace_text(&t, &chars_of(VERSION_TOKEN), &chars_of(version));
    let second = replace_text(&first, &chars_of(UPDATE_TIME_TOKEN), &chars_of(updated));
    string_of(&second)
}

/// The response to a request for `path`. Every path is answered with
/// `200 OK`: an artifact that is not there yet is served as a placeholder,
/// and any path but the two artifacts' is served the status page.
pub fn handle_http_request(path: &str, published: &Published, version: &str, now: &str) -> (r:
    Response)
    ensures
        r.status@ == "200 OK"@,
        r.content_type@ == content_type_of(route_of(path@)),
        r.body@ == body_of(route_of(path@), *published, version@, now@),
{
    match route(path) {
        Route::HostsText => {
            let body = match &published.text {
                Some(text) => text.clone(),
                None => "# no hosts yet".to_owned(),
            };
            Response { status: "200 OK", content_type: "text/plain", body }
        },
        Route::HostsJson => {
            let body = match &published.json {
                Some(json) => json.clone(),
                None => "[]".to_owned(),
            };
            Response { status: "200 OK", content_type: "application/json", body }
        },
        Route::StatusPage => {
            let body = match &published.template {
                Some(template) => render_status_page(template.as_str(), version, now),
                None => render_status_page(DEFAULT_TEMPLATE, version, now),
            };
            Response { status: "200 OK", content_type: "text/html; charset=utf-8", body }
        },
    }
}

/// The response as it goes on the wire.
pub fn build_response(response: &Response) -> (wire: String)
    ensures
        wire@ == response_text(response.status@, response.content_type@, response.body@),
{
    let mut out: Vec<char> = Vec::new();
    push_text(&mut out, "HTTP/1.1 ");
    push_text(&mut out, response.status);
    push_text(&mut out, "\r\nContent-Type: ");
    push_text(&mut out, response.content_type);
    push_text(&mut out, "\r\nContent-Length: ");
    let length: usize = response.body.as_str().as_bytes().len();
    push_decimal(&mut out, length as u64);
    push_text(&mut out, "\r\nAccess-Control-Allow-Origin: *\r\n\r\n");
    push_text(&mut out, response.body.as_str());
    string_of(&out)
}

/// The bytes to send back for the bytes read from a connection: the
/// request is decoded, its path routed, and the response put on the wire.
pub fn answer(request: &[u8], published: &Published, version: &str, now: &str) -> (wire: Vec<u8>)
    ensures
        wire@ == encode_utf8(
            response_text(
                "200 OK"@,
                content_type_of(route_of(path_in(lossy_text(request@)))),
                body_of(route_of(path_in(lossy_text(request@))), *published, version@, now@),
            ),
        ),
{
    let text = decode_lossy(request);
    let path = request_path(text.as_str());
    let response = handle_http_request(path.as_str(), published, version, now);
    let wire = build_response(&response);
    wire.as_str().as_bytes_vec()
}

} // verus!
