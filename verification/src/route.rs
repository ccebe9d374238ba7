//! Classification of request paths.

use vstd::prelude::*;

verus! {

/// The handling branch a request path falls into.
#[derive(Debug, PartialEq, Eq)]
pub enum Route {
    /// The root path `/`.
    Home,
    /// A markdown page; `name` is the path without its leading slash.
    Page { name: String },
    /// A file below the static root; `path` is what follows `/static/`.
    Asset { path: String },
    /// A path that no route accepts.
    Unmatched,
}

/// Mathematical counterpart of [`Route`].
pub enum RouteView {
    Home,
    Page { name: Seq<char> },
    Asset { path: Seq<char> },
    Unmatched,
}

impl View for Route {
    type V = RouteView;

    open spec fn view(&self) -> RouteView {
        match self {
            Route::Home => RouteView::Home,
            Route::Page { name } => RouteView::Page { name: name@ },
            Route::Asset { path } => RouteView::Asset { path: path@ },
            Route::Unmatched => RouteView::Unmatched,
        }
    }
}

/// Whether `path` addresses the static root: the segment `static` alone, or anything below it.
pub open spec fn is_asset_path(path: Seq<char>) -> bool {
    path == "/static"@ || "/static/"@.is_prefix_of(path)
}

/// The part of an asset path that follows `/static/`; empty for the static root itself.
pub open spec fn asset_of(path: Seq<char>) -> Seq<char> {
    if "/static/"@.is_prefix_of(path) {
        path.skip("/static/"@.len() as int)
    } else {
        Seq::empty()
    }
}

/// The route of a request path.
///
/// The root is the home page. The static prefix takes priority over page names, so a page
/// can be called `statics` or `static.txt` but never `static` or `static/...`. Every other
/// path that begins with a slash names a page, further slashes included; the name is the
/// rest of the path as it is spelled, neither decoded nor normalized. What does not begin
/// with a slash matches nothing.
pub open spec fn route_of(path: Seq<char>) -> RouteView {
    if path == "/"@ {
        RouteView::Home
    } else if is_asset_path(path) {
        RouteView::Asset { path: asset_of(path) }
    } else if "/"@.is_prefix_of(path) {
        RouteView::Page { name: path.skip(1) }
    } else {
        RouteView::Unmatched
    }
}

/// Tells whether `text` begins with `prefix`, character by character.
fn starts_with(text: &str, prefix: &str) -> (yes: bool)
    ensures
        yes == prefix@.is_prefix_of(text@),
{
    let n: usize = text.unicode_len();
    let m: usize = prefix.unicode_len();
    if m > n {
        return false;
    }
    let mut i: usize = 0;
    while i < m
        invariant
            i <= m <= n,
            n == text@.len(),
            m == prefix@.len(),
            forall|k: int| 0 <= k < i ==> text@[k] == prefix@[k],
        decreases m - i,
    {
        if text.get_char(i) != prefix.get_char(i) {
            return false;
        }
        i += 1;
    }
    true
}

/// Sorts a request path into its route.
pub fn classify(path: &str) -> (route: Route)
    ensures
        route@ == route_of(path@),
{
    proof {
        reveal_strlit("/");
        reveal_strlit("/static");
        reveal_strlit("/static/");
    }
    let n: usize = path.unicode_len();
    if !starts_with(path, "/") {
        return Route::Unmatched;
    }
    if n == 1 {
        assert(path@ =~= "/"@);
        return Route::Home;
    }
    if starts_with(path, "/static/") {
        let rest = path.substring_char(8, n);
        Route::Asset { path: rest.to_owned() }
    } else if n == 7 && starts_with(path, "/static") {
        assert(path@ =~= "/static"@);
        Route::Asset { path: String::new() }
    } else {
        let rest = path.substring_char(1, n);
        Route::Page { name: rest.to_owned() }
    }
}

} // verus!
