//! Pages on their way through the template, and the responses made of them.

use crate::content::{body_of, get_md, markdown_html};
use vstd::prelude::*;

verus! {

/// The status line of a response.
#[derive(Clone, Copy, Debug, PartialEq, Eq, Structural)]
pub enum Status {
    Success,
    NotFound,
    InternalServerError,
}

impl Status {
    /// The numeric status code.
    pub open spec fn code_of(self) -> int {
        match self {
            Status::Success => 200,
            Status::NotFound => 404,
            Status::InternalServerError => 500,
        }
    }

    /// The numeric status code.
    pub fn code(&self) -> (code: u16)
        ensures
            code == self.code_of(),
    {
        match self {
            Status::Success => 200,
            Status::NotFound => 404,
            Status::InternalServerError => 500,
        }
    }
}

/// What the page template is filled with: a title, and a body that is already HTML.
#[derive(Debug, PartialEq, Eq)]
pub struct PageTemplate {
    pub title: String,
    pub outlet: String,
}

/// Mathematical counterpart of [`PageTemplate`].
pub struct PageTemplateView {
    pub title: Seq<char>,
    pub outlet: Seq<char>,
}

impl View for PageTemplate {
    type V = PageTemplateView;

    open spec fn view(&self) -> PageTemplateView {
        PageTemplateView { title: self.title@, outlet: self.outlet@ }
    }
}

impl PageTemplate {
    /// A page with the given title around a body that was rendered before.
    pub fn new(title: &str, outlet: String) -> (page: PageTemplate)
        ensures
            page@ == (PageTemplateView { title: title@, outlet: outlet@ }),
    {
        PageTemplate { title: title.to_owned(), outlet }
    }
}

/// A page that awaits the template, with the status its response is to carry.
#[derive(Debug, PartialEq, Eq)]
pub struct Draft {
    pub status: Status,
    pub page: PageTemplate,
}

/// Mathematical counterpart of [`Draft`].
pub struct DraftView {
    pub status: Status,
    pub page: PageTemplateView,
}

impl View for Draft {
    type V = DraftView;

    open spec fn view(&self) -> DraftView {
        DraftView { status: self.status, page: self.page@ }
    }
}

/// The home page for what reading its source gave.
pub open spec fn home_of(source: Option<Seq<char>>) -> DraftView {
    DraftView {
        status: Status::Success,
        page: PageTemplateView { title: "Home"@, outlet: body_of(source) },
    }
}

/// A named page for what reading its source gave. A missing source changes the body,
/// not the status.
pub open spec fn resp_of(source: Option<Seq<char>>) -> DraftView {
    DraftView {
        status: Status::Success,
        page: PageTemplateView { title: ""@, outlet: body_of(source) },
    }
}

/// The shared not-found page.
pub open spec fn not_found() -> DraftView {
    DraftView {
        status: Status::NotFound,
        page: PageTemplateView { title: "404"@, outlet: markdown_html("Not Found"@) },
    }
}

/// Drafts the home page: status 200, title `Home`, and the rendered source as body.
pub fn home(source: Option<&str>) -> (draft: Draft)
    ensures
        draft@ == home_of(source.deep_view()),
{
    Draft { status: Status::Success, page: PageTemplate::new("Home", get_md(source)) }
}

/// Drafts a named page: status 200, an empty title, and the rendered source as body.
pub fn resp(source: Option<&str>) -> (draft: Draft)
    ensures
        draft@ == resp_of(source.deep_view()),
{
    Draft { status: Status::Success, page: PageTemplate::new("", get_md(source)) }
}

/// Drafts the shared not-found page: status 404, title `404`, and the rendering of the
/// text `Not Found` as body.
pub fn handle_404() -> (draft: Draft)
    ensures
        draft@ == not_found(),
{
    Draft { status: Status::NotFound, page: PageTemplate::new("404", get_md(None)) }
}

/// How the body of a response is to be read.
#[derive(Clone, Copy, Debug, PartialEq, Eq, Structural)]
pub enum MediaType {
    Html,
    PlainText,
}

/// A complete response to a page request.
#[derive(Debug, PartialEq, Eq)]
pub struct PageResponse {
    pub status: Status,
    pub media: MediaType,
    pub body: String,
}

/// Mathematical counterpart of [`PageResponse`].
pub struct PageResponseView {
    pub status: Status,
    pub media: MediaType,
    pub body: Seq<char>,
}

impl View for PageResponse {
    type V = PageResponseView;

    open spec fn view(&self) -> PageResponseView {
        PageResponseView { status: self.status, media: self.media, body: self.body@ }
    }
}

/// The view of what the template returned: the document, or a description of its failure.
pub open spec fn rendered_view(rendered: Result<String, String>) -> Result<Seq<char>, Seq<char>> {
    match rendered {
        Ok(html) => Ok(html@),
        Err(reason) => Err(reason@),
    }
}

/// The response for a draft of the given status once the template has run.
///
/// A rendered document is sent as HTML under the draft's status. A failure of the
/// template is the one internal error that reaches the client: status 500 and a plain
/// text that ends in the failure's description.
pub open spec fn into_response_of(
    status: Status,
    rendered: Result<Seq<char>, Seq<char>>,
) -> PageResponseView {
    match rendered {
        Ok(html) => PageResponseView { status, media: MediaType::Html, body: html },
        Err(reason) => PageResponseView {
            status: Status::InternalServerError,
            media: MediaType::PlainText,
            body: "Failed to render template. Error: "@ + reason,
        },
    }
}

/// Turns the outcome of the template into the response to send.
pub fn into_response(status: Status, rendered: Result<String, String>) -> (response: PageResponse)
    ensures
        response@ == into_response_of(status, rendered_view(rendered)),
{
    match rendered {
        Ok(html) => PageResponse { status, media: MediaType::Html, body: html },
        Err(reason) => {
            let mut body = String::from_str("Failed to render template. Error: ");
            body.append(reason.as_str());
            PageResponse { status: Status::InternalServerError, media: MediaType::PlainText, body }
        },
    }
}

} // verus!
