//! Fixed-input/fixed-output checks of the render pipeline: markdown
//! fixtures, page wrapping, and error panels.

use glypho::errors::{GlyphoError, IoKind, TextPoint, io_kind_message};
use glypho::page::{error_panel, page_shell, wrap_page};
use glypho::render::{render_body, render_fragment, render_outcome};

#[test]
fn heading_and_task_list_round_trip() {
    let body = render_body("# Hi\n\n- [x] done\n- [ ] todo").unwrap();
    assert!(body.contains("<h1>Hi</h1>"));
    let checkboxes = body.matches("type=\"checkbox\"").count();
    assert_eq!(checkboxes, 2);
    assert_eq!(body.matches("checked").count(), 1);
    assert!(body.contains("done"));
    assert!(body.contains("todo"));
}

#[test]
fn paragraph_exact_output() {
    let body = render_body("hello world").unwrap();
    assert_eq!(body, "<p>hello world</p>");
}

#[test]
fn table_fixture() {
    let body = render_body("| a | b |\n| - | - |\n| 1 | 2 |").unwrap();
    assert!(body.contains("<table>"));
    assert!(body.contains("<th>a</th>"));
    assert!(body.contains("<td>1</td>"));
}

#[test]
fn strikethrough_fixture() {
    let body = render_body("~~gone~~ and ~also~").unwrap();
    assert_eq!(body.matches("<del>").count(), 2);
    assert!(body.contains("<del>gone</del>"));
    assert!(body.contains("<del>also</del>"));
}

#[test]
fn front_matter_fixture() {
    let body = render_body("---\ntitle: hidden\n---\n\nvisible").unwrap();
    assert!(!body.contains("hidden"));
    assert!(body.contains("<p>visible</p>"));
}

#[test]
fn raw_html_passes_through() {
    let body = render_body("before\n\n<div class=\"keep\">inside</div>\n\nafter").unwrap();
    assert!(body.contains("<div class=\"keep\">inside</div>"));
}

#[test]
fn render_fragment_of_read_failure_is_exact_panel() {
    let body = render_fragment(Err(IoKind::NotFound));
    assert_eq!(
        body,
        "<div class=\"error-panel\">The file or directory does not exist</div>"
    );
}

#[test]
fn render_fragment_of_good_read_is_compiled_body() {
    let body = render_fragment(Ok(String::from("hello world")));
    assert_eq!(body, "<p>hello world</p>");
}

#[test]
fn render_outcome_is_the_wrapped_fragment() {
    let page = render_outcome(Ok(String::from("hello world")));
    assert_eq!(page, wrap_page("<p>hello world</p>"));
    assert!(page.starts_with("<!DOCTYPE html>"));
    assert!(page.ends_with("</html>"));

    let failed = render_outcome(Err(IoKind::NotFound));
    assert_eq!(
        failed,
        wrap_page("<div class=\"error-panel\">The file or directory does not exist</div>")
    );
}

#[test]
fn io_kind_messages_are_fixed() {
    assert_eq!(
        io_kind_message(IoKind::NotFound),
        "The file or directory does not exist"
    );
    assert_eq!(
        io_kind_message(IoKind::PermissionDenied),
        "Permission denied, insufficient permissions"
    );
    assert_eq!(io_kind_message(IoKind::InvalidData), "Corrupted data encountered");
    assert_eq!(io_kind_message(IoKind::TimedOut), "Operation timed out");
    assert_eq!(
        io_kind_message(IoKind::Other),
        "An unspecified I/O error occurred"
    );
}

#[test]
fn error_messages_name_their_failure() {
    let io_err = GlyphoError::from(IoKind::PermissionDenied);
    assert!(matches!(io_err, GlyphoError::Io { kind: IoKind::PermissionDenied }));
    assert_eq!(io_err.message(), "Permission denied, insufficient permissions");

    let malformed = GlyphoError::Malformed {
        point: Some(TextPoint { line: 3, column: 7 }),
        reason: String::from("unexpected character"),
        rule_id: String::from("some-rule"),
        source: String::from("some-source"),
    };
    assert_eq!(
        malformed.message(),
        "Markdown parsing failed: unexpected character"
    );

    assert_eq!(
        GlyphoError::WatchSetup.message(),
        "Cannot register a filesystem watch"
    );
    assert_eq!(
        GlyphoError::Poison.message(),
        "A previous render was abandoned; retrying"
    );
}

#[test]
fn error_panel_is_exact() {
    let panel = error_panel("boom");
    assert_eq!(panel, "<div class=\"error-panel\">boom</div>");
}

#[test]
fn wrap_page_embeds_body_between_shell_halves() {
    let page = wrap_page("<p>X</p>");
    assert!(page.starts_with("<!DOCTYPE html>"));
    assert!(page.contains("<article id=\"markdown\"><p>X</p></article>"));
    assert!(page.ends_with("</html>"));
}

#[test]
fn page_shell_is_the_empty_wrap() {
    assert_eq!(page_shell(), wrap_page(""));
    assert!(page_shell().contains("<article id=\"markdown\"></article>"));
}
