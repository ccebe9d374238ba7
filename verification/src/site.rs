//! A model of the whole server, and what holds of every request it answers.
//!
//! The model replaces the outside world by mathematical values: the files on disk by a
//! [`Site`], the page template by a function. [`serve`] then runs the steps of
//! [`crate::server`] against them and names the reply.

use crate::content::{body_of, content_path_of, markdown_html};
use crate::page::{
    into_response_of, not_found, DraftView, MediaType, PageResponseView, PageTemplateView, Status,
};
use crate::route::{asset_of, is_asset_path, route_of, RouteView};
use crate::server::{begin_of, read_done_of, StepView};
use vstd::prelude::*;

verus! {

/// The files a server works on.
pub struct Site {
    /// The files that can be read as text, by path, with their text.
    pub contents: Map<Seq<char>, Seq<char>>,
    /// The files below the static root, by their path from there, with their bytes.
    pub assets: Map<Seq<char>, Seq<u8>>,
}

impl Site {
    /// What reading `file` gives: its text, or nothing.
    pub open spec fn read(self, file: Seq<char>) -> Option<Seq<char>> {
        if self.contents.contains_key(file) {
            Some(self.contents[file])
        } else {
            None
        }
    }
}

/// What a client receives.
pub enum Reply {
    /// A response assembled by this crate.
    Page { response: PageResponseView },
    /// A static file, sent as it is.
    File { asset: Seq<char>, bytes: Seq<u8> },
}

/// The reply that a draft ends in when `template` fills the page.
pub open spec fn reply_of(
    draft: DraftView,
    template: spec_fn(PageTemplateView) -> Result<Seq<char>, Seq<char>>,
) -> Reply {
    Reply::Page { response: into_response_of(draft.status, template(draft.page)) }
}

/// The reply to a request for `path`.
pub open spec fn serve(
    site: Site,
    template: spec_fn(PageTemplateView) -> Result<Seq<char>, Seq<char>>,
    path: Seq<char>,
) -> Reply {
    match begin_of(path) {
        StepView::Read { content, file } => reply_of(
            read_done_of(content, site.read(file)),
            template,
        ),
        StepView::Serve { asset } => if site.assets.contains_key(asset) {
            Reply::File { asset, bytes: site.assets[asset] }
        } else {
            reply_of(not_found(), template)
        },
        StepView::Render { draft } => reply_of(draft, template),
    }
}

/// An HTML response with the given status and body.
pub open spec fn html_reply(status: Status, body: Seq<char>) -> Reply {
    Reply::Page { response: PageResponseView { status, media: MediaType::Html, body } }
}

/// Whether `name` can be the name of a page: it is not empty, and it neither is the
/// segment `static` nor lies below it.
pub open spec fn is_page_name(name: Seq<char>) -> bool {
    name.len() > 0 && name != "static"@ && !"static/"@.is_prefix_of(name)
}

/// The path `/name` leads to the page `name` exactly when `name` can name a page.
pub proof fn lemma_page_route(name: Seq<char>)
    ensures
        is_page_name(name) <==> route_of("/"@ + name) == (RouteView::Page { name }),
{
    reveal_strlit("/");
    reveal_strlit("static");
    reveal_strlit("static/");
    reveal_strlit("/static");
    reveal_strlit("/static/");
    let path = "/"@ + name;
    assert(path.skip(1) =~= name);
    assert(name == "static"@ <==> path == "/static"@) by {
        if name == "static"@ {
            assert(path =~= "/static"@);
        }
        if path == "/static"@ {
            assert(name =~= "static"@);
        }
    }
    assert("static/"@.is_prefix_of(name) <==> "/static/"@.is_prefix_of(path)) by {
        if "static/"@.is_prefix_of(name) {
            assert forall|i: int| 0 <= i < 8 implies "/static/"@[i] == path[i] by {
                if i > 0 {
                    assert(path[i] == name.subrange(0, 7)[i - 1]);
                }
            }
            assert("/static/"@ =~= path.subrange(0, 8));
        }
        if "/static/"@.is_prefix_of(path) {
            assert forall|i: int| 0 <= i < 7 implies "static/"@[i] == name[i] by {
                assert(name[i] == path.subrange(0, 8)[i + 1]);
            }
            assert("static/"@ =~= name.subrange(0, 7));
        }
    }
}

/// A request for `/name`, where the source of the page `name` can be read, is answered
/// with the page of empty title whose body is the rendering of that source. Whenever the
/// template produces a document, the document is sent as HTML with status 200.
pub proof fn lemma_existing_page(
    site: Site,
    template: spec_fn(PageTemplateView) -> Result<Seq<char>, Seq<char>>,
    name: Seq<char>,
)
    requires
        is_page_name(name),
        site.contents.contains_key(content_path_of(name)),
    ensures
        ({
            let text = site.contents[content_path_of(name)];
            let page = PageTemplateView { title: ""@, outlet: markdown_html(text) };
            &&& serve(site, template, "/"@ + name) == reply_of(
                DraftView { status: Status::Success, page },
                template,
            )
            &&& template(page) matches Ok(html) ==> serve(site, template, "/"@ + name)
                == html_reply(Status::Success, html)
        }),
{
    lemma_page_route(name);
}

/// A request for `/name`, where the page `name` has no readable source, is answered
/// with the page of empty title whose body is the rendering of the text `Not Found`.
/// Whenever the template produces a document, the document is sent with status 200,
/// not 404.
pub proof fn lemma_missing_page(
    site: Site,
    template: spec_fn(PageTemplateView) -> Result<Seq<char>, Seq<char>>,
    name: Seq<char>,
)
    requires
        is_page_name(name),
        !site.contents.contains_key(content_path_of(name)),
    ensures
        ({
            let page = PageTemplateView { title: ""@, outlet: markdown_html("Not Found"@) };
            &&& serve(site, template, "/"@ + name) == reply_of(
                DraftView { status: Status::Success, page },
                template,
            )
            &&& template(page) matches Ok(html) ==> serve(site, template, "/"@ + name)
                == html_reply(Status::Success, html)
        }),
{
    lemma_page_route(name);
}

/// A request for the root is answered with the page titled `Home` whose body comes from
/// the source of the page `index`: its rendering, or that of the text `Not Found` where
/// there is no such source. Whenever the template produces a document, the document is
/// sent as HTML with status 200, whatever the site holds.
pub proof fn lemma_home(
    site: Site,
    template: spec_fn(PageTemplateView) -> Result<Seq<char>, Seq<char>>,
)
    ensures
        ({
            let source = site.read(content_path_of("index"@));
            let page = PageTemplateView { title: "Home"@, outlet: body_of(source) };
            &&& serve(site, template, "/"@) == reply_of(
                DraftView { status: Status::Success, page },
                template,
            )
            &&& template(page) matches Ok(html) ==> serve(site, template, "/"@) == html_reply(
                Status::Success,
                html,
            )
        }),
{
}

/// A request below the static root for a file that is there is answered with that file.
pub proof fn lemma_existing_asset(
    site: Site,
    template: spec_fn(PageTemplateView) -> Result<Seq<char>, Seq<char>>,
    path: Seq<char>,
)
    requires
        is_asset_path(path),
        site.assets.contains_key(asset_of(path)),
    ensures
        serve(site, template, path) == (Reply::File {
            asset: asset_of(path),
            bytes: site.assets[asset_of(path)],
        }),
{
    reveal_strlit("/");
    reveal_strlit("/static");
    reveal_strlit("/static/");
}

/// A request below the static root for a file that is not there is answered with the
/// shared not-found page. Whenever the template produces a document, the document is
/// sent as HTML with status 404.
pub proof fn lemma_missing_asset(
    site: Site,
    template: spec_fn(PageTemplateView) -> Result<Seq<char>, Seq<char>>,
    path: Seq<char>,
)
    requires
        is_asset_path(path),
        !site.assets.contains_key(asset_of(path)),
    ensures
        serve(site, template, path) == reply_of(not_found(), template),
        template(not_found().page) matches Ok(html) ==> serve(site, template, path) == html_reply(
            Status::NotFound,
            html,
        ),
{
    reveal_strlit("/");
    reveal_strlit("/static");
    reveal_strlit("/static/");
}

/// A request for a path that is neither the root, nor below the static root, nor the
/// path of a page is answered with the shared not-found page. Whenever the template
/// produces a document, the document is sent as HTML with status 404.
pub proof fn lemma_unmatched(
    site: Site,
    template: spec_fn(PageTemplateView) -> Result<Seq<char>, Seq<char>>,
    path: Seq<char>,
)
    requires
        path != "/"@,
        !is_asset_path(path),
        !"/"@.is_prefix_of(path),
    ensures
        serve(site, template, path) == reply_of(not_found(), template),
        template(not_found().page) matches Ok(html) ==> serve(site, template, path) == html_reply(
            Status::NotFound,
            html,
        ),
{
}

/// The status of a reply tells where it comes from. A file is sent only below the
/// static root. Status 200 is carried only by the home page and by named pages, whether
/// their source was found or not; status 404 only by the not-found page for a missing
/// asset or an unmatched path; status 500 only by the plain text that reports a failure of
/// the template. Every other response is HTML.
pub proof fn lemma_status(
    site: Site,
    template: spec_fn(PageTemplateView) -> Result<Seq<char>, Seq<char>>,
    path: Seq<char>,
)
    ensures
        match serve(site, template, path) {
            Reply::File { .. } => route_of(path) is Asset,
            Reply::Page { response } => match response.status {
                Status::Success => {
                    &&& route_of(path) is Home || route_of(path) is Page
                    &&& response.media == MediaType::Html
                },
                Status::NotFound => {
                    &&& route_of(path) is Asset || route_of(path) is Unmatched
                    &&& response.media == MediaType::Html
                },
                Status::InternalServerError => {
                    &&& response.media == MediaType::PlainText
                    &&& "Failed to render template. Error: "@.is_prefix_of(response.body)
                },
            },
        },
{
    match serve(site, template, path) {
        Reply::Page { response } => {
            if response.status == Status::InternalServerError {
                let head = "Failed to render template. Error: "@;
                assert(head =~= response.body.subrange(0, head.len() as int));
            }
        },
        _ => {},
    }
}

/// Two requests for one path are answered alike when nothing on the site has changed in
/// between: whatever could be read before can be read after, with the same contents. The
/// reply is a function of the path, the files and the template and of nothing else: every
/// step is a function of what it is given, and the markdown renderer's output depends on
/// its input alone.
pub proof fn lemma_repeat(
    before: Site,
    after: Site,
    template: spec_fn(PageTemplateView) -> Result<Seq<char>, Seq<char>>,
    path: Seq<char>,
)
    requires
        before.contents =~= after.contents,
        before.assets =~= after.assets,
    ensures
        serve(before, template, path) == serve(after, template, path),
{
}

} // verus!
