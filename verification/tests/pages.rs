use mdpages::content::get_md;
use mdpages::page::{
    handle_404, home, into_response, resp, Draft, MediaType, PageResponse, PageTemplate, Status,
};

#[test]
fn plain_text_becomes_a_paragraph() {
    let html = get_md(Some("Hello"));
    assert_eq!(html, "<p>Hello</p>");
    assert!(html.contains("Hello"));
}

#[test]
fn rendering_is_the_work_of_the_markdown_renderer() {
    let source = "# Hi Mercury!\n\nSome *text* and a [link](https://example.com).\n";
    assert_eq!(get_md(Some(source)), markdown::to_html(source));
    assert_eq!(get_md(Some("# Hi Mercury!")), "<h1>Hi Mercury!</h1>");
    assert_ne!(get_md(Some("# Hi Mercury!")), "# Hi Mercury!");
}

#[test]
fn empty_source_is_not_a_missing_source() {
    assert_eq!(get_md(Some("")), "");
    assert_ne!(get_md(Some("")), get_md(None));
}

#[test]
fn missing_source_renders_not_found() {
    assert_eq!(get_md(None), "<p>Not Found</p>");
    assert_eq!(get_md(None), markdown::to_html("Not Found"));
}

#[test]
fn raw_html_in_a_source_is_escaped_by_the_renderer() {
    assert_eq!(get_md(Some("<b>x</b>")), "<p>&lt;b&gt;x&lt;/b&gt;</p>");
}

#[test]
fn home_page_has_the_home_title() {
    let draft = home(Some("Welcome"));
    assert_eq!(
        draft,
        Draft {
            status: Status::Success,
            page: PageTemplate { title: "Home".to_string(), outlet: "<p>Welcome</p>".to_string() },
        }
    );
}

#[test]
fn home_page_without_index_still_succeeds() {
    let draft = home(None);
    assert_eq!(draft.status, Status::Success);
    assert_eq!(draft.page.title, "Home");
    assert_eq!(draft.page.outlet, "<p>Not Found</p>");
}

#[test]
fn named_page_has_an_empty_title() {
    let draft = resp(Some("Hello"));
    assert_eq!(
        draft,
        Draft {
            status: Status::Success,
            page: PageTemplate { title: String::new(), outlet: "<p>Hello</p>".to_string() },
        }
    );
}

#[test]
fn missing_named_page_keeps_status_success() {
    let draft = resp(None);
    assert_eq!(draft.status, Status::Success);
    assert_eq!(draft.status.code(), 200);
    assert_eq!(draft.page.title, "");
    assert_eq!(draft.page.outlet, "<p>Not Found</p>");
}

#[test]
fn not_found_page_has_title_404() {
    let draft = handle_404();
    assert_eq!(
        draft,
        Draft {
            status: Status::NotFound,
            page: PageTemplate { title: "404".to_string(), outlet: "<p>Not Found</p>".to_string() },
        }
    );
}

#[test]
fn page_template_new_keeps_title_and_outlet() {
    let page = PageTemplate::new("T", "<p>b</p>".to_string());
    assert_eq!(page, PageTemplate { title: "T".to_string(), outlet: "<p>b</p>".to_string() });
}

#[test]
fn status_codes() {
    assert_eq!(Status::Success.code(), 200);
    assert_eq!(Status::NotFound.code(), 404);
    assert_eq!(Status::InternalServerError.code(), 500);
}

#[test]
fn rendered_document_is_sent_as_html() {
    let response = into_response(Status::Success, Ok("<html>x</html>".to_string()));
    assert_eq!(
        response,
        PageResponse {
            status: Status::Success,
            media: MediaType::Html,
            body: "<html>x</html>".to_string(),
        }
    );
}

#[test]
fn rendered_document_keeps_the_draft_status() {
    let response = into_response(Status::NotFound, Ok("<html>404</html>".to_string()));
    assert_eq!(response.status, Status::NotFound);
    assert_eq!(response.media, MediaType::Html);
    assert_eq!(response.body, "<html>404</html>");
}

#[test]
fn render_failure_is_a_plain_text_500() {
    let response = into_response(Status::Success, Err("boom".to_string()));
    assert_eq!(
        response,
        PageResponse {
            status: Status::InternalServerError,
            media: MediaType::PlainText,
            body: "Failed to render template. Error: boom".to_string(),
        }
    );
    assert_eq!(response.status.code(), 500);
}

#[test]
fn render_failure_overrides_the_not_found_status() {
    let response = into_response(Status::NotFound, Err(String::new()));
    assert_eq!(response.status, Status::InternalServerError);
    assert_eq!(response.media, MediaType::PlainText);
    assert_eq!(response.body, "Failed to render template. Error: ");
}
