use mdpages::content::content_path;
use mdpages::route::{classify, Route};

fn page(name: &str) -> Route {
    Route::Page { name: name.to_string() }
}

fn asset(path: &str) -> Route {
    Route::Asset { path: path.to_string() }
}

#[test]
fn root_is_the_home_page() {
    assert_eq!(classify("/"), Route::Home);
}

#[test]
fn single_segment_names_a_page() {
    assert_eq!(classify("/about"), page("about"));
    assert_eq!(classify("/missing-page"), page("missing-page"));
}

#[test]
fn page_name_keeps_further_slashes() {
    assert_eq!(classify("/docs/intro"), page("docs/intro"));
    assert_eq!(classify("/docs/"), page("docs/"));
    assert_eq!(classify("//"), page("/"));
    assert_eq!(classify("/../secret"), page("../secret"));
}

#[test]
fn page_name_is_taken_verbatim() {
    assert_eq!(classify("/caf\u{e9}"), page("caf\u{e9}"));
    assert_eq!(classify("/a%20b"), page("a%20b"));
    assert_eq!(classify("/index"), page("index"));
}

#[test]
fn static_prefix_selects_an_asset() {
    assert_eq!(classify("/static/site.css"), asset("site.css"));
    assert_eq!(classify("/static/img/logo.png"), asset("img/logo.png"));
    assert_eq!(classify("/static/does-not-exist.png"), asset("does-not-exist.png"));
    assert_eq!(classify("/static/\u{e9}t\u{e9}.png"), asset("\u{e9}t\u{e9}.png"));
}

#[test]
fn static_root_is_an_asset_with_empty_path() {
    assert_eq!(classify("/static"), asset(""));
    assert_eq!(classify("/static/"), asset(""));
}

#[test]
fn static_prefix_wins_over_page_names() {
    assert_ne!(classify("/static/about"), page("static/about"));
    assert_ne!(classify("/static"), page("static"));
}

#[test]
fn static_lookalikes_are_pages() {
    assert_eq!(classify("/statics"), page("statics"));
    assert_eq!(classify("/static.css"), page("static.css"));
    assert_eq!(classify("/staticfoo/bar"), page("staticfoo/bar"));
    assert_eq!(classify("/stati"), page("stati"));
    assert_eq!(classify("/Static/x"), page("Static/x"));
    assert_eq!(classify("/a/static/x"), page("a/static/x"));
}

#[test]
fn path_without_leading_slash_is_unmatched() {
    assert_eq!(classify(""), Route::Unmatched);
    assert_eq!(classify("about"), Route::Unmatched);
    assert_eq!(classify("static/site.css"), Route::Unmatched);
    assert_eq!(classify("*"), Route::Unmatched);
    assert_eq!(classify(" /"), Route::Unmatched);
}

#[test]
fn content_path_joins_root_name_and_extension() {
    assert_eq!(content_path("index"), "./contents/index.md");
    assert_eq!(content_path("missing-page"), "./contents/missing-page.md");
    assert_eq!(content_path("docs/intro"), "./contents/docs/intro.md");
}

#[test]
fn content_path_does_not_inspect_the_name() {
    assert_eq!(content_path(""), "./contents/.md");
    assert_eq!(content_path("../secret"), "./contents/../secret.md");
    assert_eq!(content_path("notes.md"), "./contents/notes.md.md");
    assert_eq!(content_path("caf\u{e9}"), "./contents/caf\u{e9}.md");
}
