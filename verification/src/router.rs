//! Request routing: which response each method, path and decoded form
//! field is answered with.  The HTTP runtime around the library decodes
//! the request and sends the response; the decision of what to answer
//! is made here.

use vstd::prelude::*;
use vstd::string::StringExecFns;
use crate::render::render_video_page;
use crate::render::spec_render;
use crate::search::str_eq;

verus! {

/// Status of a successful answer.
pub const STATUS_OK: u16 = 200;

/// Status of a submission whose form body lacks the `video_url` field
/// or cannot be decoded as the expected form shape.
pub const STATUS_BAD_REQUEST: u16 = 400;

/// Status of a request for a method and path the router does not bind.
pub const STATUS_NOT_FOUND: u16 = 404;

/// An HTTP request method, as far as the router distinguishes them.
#[derive(Clone, Copy, Debug, PartialEq, Eq, Structural)]
pub enum Method {
    Get,
    Post,
}

/// A response: a status code and an HTML body.
#[derive(Debug)]
pub struct HttpResponse {
    pub status: u16,
    pub body: String,
}

/// The response owed to a request, as status and body view.
///
/// `video_url` is the decoded `video_url` form field of the request:
/// `None` both when the request carries no body and when the body could
/// not be decoded to that field.  `entry_page` and `video_page` are the
/// two static templates the process loaded at startup.
pub open spec fn spec_route(
    method: Method,
    path: Seq<char>,
    video_url: Option<Seq<char>>,
    entry_page: Seq<char>,
    video_page: Seq<char>,
) -> (u16, Seq<char>) {
    if method == Method::Get && path == "/"@ {
        (STATUS_OK, entry_page)
    } else if method == Method::Post && path == "/play"@ {
        match video_url {
            Option::Some(url) => (STATUS_OK, spec_render(video_page, url)),
            Option::None => (STATUS_BAD_REQUEST, Seq::<char>::empty()),
        }
    } else {
        (STATUS_NOT_FOUND, Seq::<char>::empty())
    }
}

/// Answers one request.  Every request is answered: the entry page for
/// `GET /`, the rendered playback page for a well-formed `POST /play`,
/// a bad-request status when the `video_url` field is missing, and a
/// not-found status for everything else.
pub fn handle_request(
    method: Method,
    path: &str,
    video_url: Option<&str>,
    entry_page: &str,
    video_page: &str,
) -> (r: HttpResponse)
    ensures
        ({
            let (status, body) = spec_route(
                method,
                path@,
                match video_url {
                    Option::Some(url) => Option::Some(url@),
                    Option::None => Option::None,
                },
                entry_page@,
                video_page@,
            );
            r.status == status && r.body@ == body
        }),
{
    if matches!(method, Method::Get) && str_eq(path, "/") {
        HttpResponse { status: STATUS_OK, body: entry_page.to_owned() }
    } else if matches!(method, Method::Post) && str_eq(path, "/play") {
        match video_url {
            Option::Some(url) => HttpResponse {
                status: STATUS_OK,
                body: render_video_page(video_page, url),
            },
            Option::None => HttpResponse { status: STATUS_BAD_REQUEST, body: String::new() },
        }
    } else {
        HttpResponse { status: STATUS_NOT_FOUND, body: String::new() }
    }
}

/// `GET /` always returns the entry page exactly, with status 200,
/// whatever form field a request may carry: in particular a failed
/// submission leaves what the entry page request returns untouched.
pub proof fn lemma_get_entry_page(
    video_url: Option<Seq<char>>,
    entry_page: Seq<char>,
    video_page: Seq<char>,
)
    ensures
        spec_route(Method::Get, "/"@, video_url, entry_page, video_page) == (
            STATUS_OK,
            entry_page,
        ),
{
}

/// A submission without a decoded `video_url` field is rejected with a
/// bad-request status, never answered with a rendered page.
pub proof fn lemma_missing_field_rejected(entry_page: Seq<char>, video_page: Seq<char>)
    ensures
        spec_route(Method::Post, "/play"@, Option::None, entry_page, video_page).0
            == STATUS_BAD_REQUEST,
{
}

} // verus!
