//! Locating and rendering the markdown source of a page.

use vstd::prelude::*;

verus! {

/// The HTML that the markdown renderer produces for `text`.
///
/// The renderer is a pure function of its input, so its output has a name; what the
/// output looks like is the renderer's business and is stated nowhere in this crate.
pub uninterp spec fn markdown_html(text: Seq<char>) -> Seq<char>;

/// Calls `markdown::to_html`, which compiles CommonMark with the default options.
///
/// Trusted: the returned string is the renderer's output for `text` and depends on
/// nothing else. With the default options the renderer accepts every input.
#[verifier::external_body]
fn to_html(text: &str) -> (html: String)
    ensures
        html@ == markdown_html(text@),
{
    markdown::to_html(text)
}

/// Where the markdown source of the page `name` is kept.
pub open spec fn content_path_of(name: Seq<char>) -> Seq<char> {
    "./contents/"@ + name + ".md"@
}

/// The body of a page whose source was read as `source`; `None` stands for a source
/// that is absent or could not be read as text.
pub open spec fn body_of(source: Option<Seq<char>>) -> Seq<char> {
    match source {
        Some(text) => markdown_html(text),
        None => markdown_html("Not Found"@),
    }
}

/// Builds the path of the markdown file behind a page name: the content root, the name
/// as given, and the markdown extension. The name is not inspected.
pub fn content_path(name: &str) -> (file: String)
    ensures
        file@ == content_path_of(name@),
{
    let mut file = String::from_str("./contents/");
    file.append(name);
    file.append(".md");
    file
}

/// Renders the body of a page from what reading its source gave.
///
/// A source that was read is rendered as markdown. A missing or unreadable source is not
/// an error: the body is then the rendering of the text `Not Found`.
pub fn get_md(source: Option<&str>) -> (html: String)
    ensures
        html@ == body_of(source.deep_view()),
{
    match source {
        Some(text) => to_html(text),
        None => to_html("Not Found"),
    }
}

} // verus!
