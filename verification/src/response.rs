//! The answers of the service: status, headers and body.

use vstd::prelude::*;
use crate::config::Config;
use crate::errors::{KvError, ResponseError};
use crate::expiry::rfc2822_text;
use crate::html::{page_text, shown_expiry, shown_title};
use crate::paste::{StoredPaste, StoredPasteView};

verus! {

/// The page sent where no paste is found.
pub const NOT_FOUND_PAGE: &'static str =
    "<!DOCTYPE html><html lang=\"en\"><head><meta charset=\"utf-8\"><title>Not found</title></head><body><h1>404</h1><p>There is no paste here.</p></body></html>";

/// An answer to a request.
#[derive(Clone, Debug, PartialEq, Eq)]
pub struct HttpResponse {
    pub status: u16,
    /// The headers, in the order in which they are set.
    pub headers: Vec<(String, String)>,
    pub body: String,
}

/// What an answer says.
pub struct HttpResponseView {
    pub status: u16,
    pub headers: Seq<(Seq<char>, Seq<char>)>,
    pub body: Seq<char>,
}

impl View for HttpResponse {
    type V = HttpResponseView;

    open spec fn view(&self) -> HttpResponseView {
        HttpResponseView {
            status: self.status,
            headers: Seq::new(
                self.headers@.len(),
                |i: int| (self.headers@[i].0@, self.headers@[i].1@),
            ),
            body: self.body@,
        }
    }
}

/// How a failed request ends.
#[derive(Clone, Debug, PartialEq, Eq)]
pub enum Reply {
    /// The client gets an answer.
    Respond(HttpResponse),
    /// The request is given up with a reason, and the host answers as it
    /// does for a failure of its own.
    Reject(String),
}

/// The header that says the body is a page.
pub open spec fn html_header() -> (Seq<char>, Seq<char>) {
    ("content-type"@, "text/html"@)
}

/// The answer that sends the client to `location`.
pub open spec fn redirect_to(status: u16, location: Seq<char>) -> HttpResponseView {
    HttpResponseView { status, headers: seq![("Location"@, location)], body: Seq::empty() }
}

/// The answer that carries a page.
pub open spec fn page_response(status: u16, body: Seq<char>) -> HttpResponseView {
    HttpResponseView { status, headers: seq![html_header()], body }
}

/// The answer to a fetch that found nothing.
pub open spec fn not_found_response() -> HttpResponseView {
    page_response(404, NOT_FOUND_PAGE@)
}

/// The headers of the answer that shows a paste: one that expires may be
/// cached until then.
pub open spec fn paste_headers(paste: StoredPasteView) -> Seq<(Seq<char>, Seq<char>)> {
    match paste.exp {
        Some(exp) => seq![
            html_header(),
            ("Expires"@, rfc2822_text(exp.secs, exp.nanos)),
            ("Cache-Control"@, "public"@),
            ("Cache-Control"@, "immutable"@),
        ],
        None => seq![html_header()],
    }
}

/// The answer to a fetch, by what the store held.
pub open spec fn fetch_response(found: Option<StoredPasteView>) -> HttpResponseView {
    match found {
        Some(paste) => HttpResponseView {
            status: 200,
            headers: paste_headers(paste),
            body: page_text(
                shown_title(paste),
                paste.author,
                paste.unlisted,
                shown_expiry(paste),
                paste.content,
            ),
        },
        None => not_found_response(),
    }
}

/// The status that a failure is answered with, where it is answered.
pub open spec fn error_status(error: ResponseError) -> Option<u16> {
    match error {
        ResponseError::ContentTypeError => Some(400u16),
        ResponseError::InvalidExpiration => Some(400u16),
        ResponseError::MissingFormValue => Some(400u16),
        ResponseError::KvError(KvError::UnsupportedTtl(_)) => Some(400u16),
        ResponseError::InvalidMethod => Some(405u16),
        ResponseError::NonexistentResource => Some(404u16),
        _ => None,
    }
}

/// A header with the given name and value.
fn pair(name: &str, value: &str) -> (r: (String, String))
    ensures
        r.0@ == name@,
        r.1@ == value@,
{
    (String::from_str(name), String::from_str(value))
}

/// An answer that carries a page.
fn page(status: u16, body: String) -> (r: HttpResponse)
    ensures
        r@ == page_response(status, body@),
{
    let mut headers: Vec<(String, String)> = Vec::new();
    headers.push(pair("content-type", "text/html"));
    let r = HttpResponse { status, headers, body };
    proof {
        assert(r@.headers =~= seq![html_header()]);
    }
    r
}

/// The answer that sends the client to `location` with the given status.
pub fn redirect(status: u16, location: &str) -> (r: HttpResponse)
    ensures
        r@ == redirect_to(status, location@),
{
    let mut headers: Vec<(String, String)> = Vec::new();
    headers.push(pair("Location", location));
    let r = HttpResponse { status, headers, body: String::new() };
    proof {
        assert(r@.headers =~= seq![("Location"@, location@)]);
    }
    r
}

/// The answer to a read of the collection: the client is sent to the
/// service's index for good.
pub fn index_redirect(config: &Config) -> (r: HttpResponse)
    ensures
        r@ == redirect_to(301, config.base_url@),
{
    redirect(301, config.base_url.as_str())
}

/// The answer to a fetch that found nothing.
pub fn not_found() -> (r: HttpResponse)
    ensures
        r@ == not_found_response(),
{
    page(404, String::from_str(NOT_FOUND_PAGE))
}

/// The answer that reports a failure with the given status.
pub fn error_response<const STATUS: u16>(error: &ResponseError) -> (r: HttpResponse)
    ensures
        r@ == page_response(STATUS, error.message_text()),
{
    page(STATUS, error.message())
}

/// The answer to a fetch, by what the store held under the identifier: the
/// paste's page, which may be cached until the paste expires, or the page
/// that says nothing was found.
pub fn render_paste(found: Option<StoredPaste>) -> (r: HttpResponse)
    requires
        found matches Some(paste) ==> (paste.exp matches Some(exp) ==> exp.is_valid()
            && exp.fits_header()),
    ensures
        r@ == fetch_response(
            match found {
                Some(paste) => Some(paste@),
                None => None,
            },
        ),
{
    match found {
        Some(paste) => {
            let mut headers: Vec<(String, String)> = Vec::new();
            headers.push(pair("content-type", "text/html"));
            if let Some(exp) = paste.exp {
                let when = exp.to_rfc2822();
                headers.push(pair("Expires", when.as_str()));
                headers.push(pair("Cache-Control", "public"));
                headers.push(pair("Cache-Control", "immutable"));
            }
            let ghost shown = paste@;
            let body = paste.render_html();
            let r = HttpResponse { status: 200, headers, body };
            proof {
                assert(r@.headers =~= paste_headers(shown));
            }
            r
        },
        None => not_found(),
    }
}

/// How a failed request ends. A fault of the client is answered with its
/// reason; a path that names no resource with the page that says so; any
/// other failure is handed to the host.
pub fn error_reply(error: ResponseError) -> (r: Reply)
    ensures
        match error_status(error) {
            Some(status) => r matches Reply::Respond(answer) && answer@ == (if status == 404 {
                not_found_response()
            } else {
                page_response(status, error.message_text())
            }),
            None => r matches Reply::Reject(reason) && reason@ == error.message_text(),
        },
{
    match &error {
        ResponseError::ContentTypeError => Reply::Respond(error_response::<400>(&error)),
        ResponseError::InvalidExpiration => Reply::Respond(error_response::<400>(&error)),
        ResponseError::MissingFormValue => Reply::Respond(error_response::<400>(&error)),
        ResponseError::KvError(KvError::UnsupportedTtl(_)) => Reply::Respond(
            error_response::<400>(&error),
        ),
        ResponseError::InvalidMethod => Reply::Respond(error_response::<405>(&error)),
        ResponseError::NonexistentResource => Reply::Respond(not_found()),
        _ => Reply::Reject(error.message()),
    }
}

} // verus!
