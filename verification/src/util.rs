//! Responses, and the step from a rendered page to one.

use crate::models::user_form_models::text_of;
use vstd::prelude::*;
use vstd::string::*;

verus! {

pub const STATUS_OK: u16 = 200;

pub const STATUS_SEE_OTHER: u16 = 303;

pub const STATUS_NOT_FOUND: u16 = 404;

pub const STATUS_INTERNAL_SERVER_ERROR: u16 = 500;

/// What a response body holds.
#[derive(Clone, Copy, Debug, PartialEq, Eq, Structural)]
pub enum ContentKind {
    Html,
    PlainText,
}

/// An HTTP response as far as this library decides it.
pub struct Response {
    pub status: u16,
    pub kind: ContentKind,
    pub body: String,
    pub location: Option<String>,
}

/// A `Response` as plain text.
pub struct ResponseView {
    pub status: u16,
    pub kind: ContentKind,
    pub body: Seq<char>,
    pub location: Option<Seq<char>>,
}

impl View for Response {
    type V = ResponseView;

    open spec fn view(&self) -> ResponseView {
        ResponseView {
            status: self.status,
            kind: self.kind,
            body: self.body@,
            location: text_of(self.location),
        }
    }
}

pub open spec fn render_failure_prefix() -> Seq<char> {
    "Failed to render template. Error: "@
}

/// A plain-text response with the given status.
pub open spec fn plain_text(status: u16, body: Seq<char>) -> ResponseView {
    ResponseView { status, kind: ContentKind::PlainText, body, location: None }
}

/// A redirect: status 303, the target in `location`, no body.
pub open spec fn redirect_to(target: Seq<char>) -> ResponseView {
    ResponseView {
        status: STATUS_SEE_OTHER,
        kind: ContentKind::PlainText,
        body: Seq::empty(),
        location: Some(target),
    }
}

/// The response for a page whose rendering gave `rendered`: the page with
/// status 200, or status 500 with the renderer's complaint.
pub open spec fn page_response(rendered: Result<Seq<char>, Seq<char>>) -> ResponseView {
    match rendered {
        Ok(html) => ResponseView {
            status: STATUS_OK,
            kind: ContentKind::Html,
            body: html,
            location: None,
        },
        Err(complaint) => plain_text(
            STATUS_INTERNAL_SERVER_ERROR,
            render_failure_prefix() + complaint,
        ),
    }
}

/// The text on either side of a rendering result.
pub open spec fn rendered_text(rendered: Result<String, String>) -> Result<Seq<char>, Seq<char>> {
    match rendered {
        Ok(html) => Ok(html@),
        Err(complaint) => Err(complaint@),
    }
}

impl Response {
    pub fn text(status: u16, body: &str) -> (r: Response)
        ensures
            r@ == plain_text(status, body@),
    {
        Response { status, kind: ContentKind::PlainText, body: body.to_owned(), location: None }
    }

    pub fn redirect(target: &str) -> (r: Response)
        ensures
            r@ == redirect_to(target@),
    {
        Response {
            status: STATUS_SEE_OTHER,
            kind: ContentKind::PlainText,
            body: String::new(),
            location: Some(target.to_owned()),
        }
    }

    /// The same response under another status.
    pub fn with_status(self, status: u16) -> (r: Response)
        ensures
            r@ == (ResponseView { status, ..self@ }),
    {
        Response { status, kind: self.kind, body: self.body, location: self.location }
    }
}

/// A page on its way to becoming a response.
pub struct HtmlTemplate<T>(pub T);

impl<T> HtmlTemplate<T> {
    /// Turns the outcome of rendering the page into the response.
    pub fn into_response(self, rendered: Result<String, String>) -> (r: Response)
        ensures
            r@ == page_response(rendered_text(rendered)),
    {
        match rendered {
            Ok(html) => Response {
                status: STATUS_OK,
                kind: ContentKind::Html,
                body: html,
                location: None,
            },
            Err(complaint) => {
                let body: String = "Failed to render template. Error: ".to_owned().concat(
                    complaint.as_str(),
                );
                Response {
                    status: STATUS_INTERNAL_SERVER_ERROR,
                    kind: ContentKind::PlainText,
                    body,
                    location: None,
                }
            },
        }
    }
}

} // verus!
