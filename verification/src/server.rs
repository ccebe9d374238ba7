//! The course of one request, as a sequence of steps.
//!
//! A request is answered by alternating decisions with work on the outside: reading a
//! file, streaming an asset, filling the template. The decisions are taken here. Each
//! function returns what has to happen next; the caller does that and comes back with the
//! outcome.

use crate::content::{content_path, content_path_of};
use crate::page::{handle_404, home, home_of, not_found, resp, resp_of, Draft, DraftView};
use crate::route::{classify, route_of, Route, RouteView};
use vstd::prelude::*;

verus! {

/// Which of the two kinds of markdown page a source is read for.
#[derive(Clone, Copy, Debug, PartialEq, Eq, Structural)]
pub enum Content {
    Home,
    Named,
}

/// What the server has to do next for a request.
#[derive(Debug, PartialEq, Eq)]
pub enum Step {
    /// Read `file` as text and continue with [`read_done`].
    Read { content: Content, file: String },
    /// Send the file `asset` from below the static root; if there is none, continue with
    /// [`handle_404`].
    Serve { asset: String },
    /// Fill the template with the draft's page and finish with
    /// [`into_response`](crate::page::into_response).
    Render { draft: Draft },
}

/// Mathematical counterpart of [`Step`].
pub enum StepView {
    Read { content: Content, file: Seq<char> },
    Serve { asset: Seq<char> },
    Render { draft: DraftView },
}

impl View for Step {
    type V = StepView;

    open spec fn view(&self) -> StepView {
        match self {
            Step::Read { content, file } => StepView::Read { content: *content, file: file@ },
            Step::Serve { asset } => StepView::Serve { asset: asset@ },
            Step::Render { draft } => StepView::Render { draft: draft@ },
        }
    }
}

/// The first step for a request path.
///
/// The home page is read from the page named `index`, a named page from the page of its
/// name, an asset is served from the static root, and a path without a route is answered
/// with the not-found page at once.
pub open spec fn begin_of(path: Seq<char>) -> StepView {
    match route_of(path) {
        RouteView::Home => StepView::Read {
            content: Content::Home,
            file: content_path_of("index"@),
        },
        RouteView::Page { name } => StepView::Read {
            content: Content::Named,
            file: content_path_of(name),
        },
        RouteView::Asset { path } => StepView::Serve { asset: path },
        RouteView::Unmatched => StepView::Render { draft: not_found() },
    }
}

/// The draft of a markdown page once its source has been read.
pub open spec fn read_done_of(content: Content, source: Option<Seq<char>>) -> DraftView {
    match content {
        Content::Home => home_of(source),
        Content::Named => resp_of(source),
    }
}

/// Decides the first step for a request path.
pub fn begin(path: &str) -> (step: Step)
    ensures
        step@ == begin_of(path@),
{
    match classify(path) {
        Route::Home => Step::Read { content: Content::Home, file: content_path("index") },
        Route::Page { name } => Step::Read {
            content: Content::Named,
            file: content_path(name.as_str()),
        },
        Route::Asset { path } => Step::Serve { asset: path },
        Route::Unmatched => Step::Render { draft: handle_404() },
    }
}

/// Continues after a [`Step::Read`]: `source` is the text of the file, or `None` if the
/// file is missing or cannot be read as text.
pub fn read_done(content: Content, source: Option<&str>) -> (draft: Draft)
    ensures
        draft@ == read_done_of(content, source.deep_view()),
{
    match content {
        Content::Home => home(source),
        Content::Named => resp(source),
    }
}

} // verus!
