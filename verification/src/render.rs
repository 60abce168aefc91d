//! The render pipeline: markdown source text in, page to publish out.
//!
//! The markdown compiler is an external collaborator. Its output is a pure
//! function of the source text (the option set is fixed), so it is given the
//! name [`compiled_html`]; everything around the call — error classification,
//! panel framing, totality — is verified against that name.

use vstd::prelude::*;

use crate::errors::{GlyphoError, IoKind, TextPoint, error_message_text, io_kind_message};
use crate::page::{error_panel, error_panel_text, is_error_panel, wrap_page, wrapped_page_text};

verus! {

/// The markdown compiler's report of a rejected input.
#[verifier::external_type_specification]
#[verifier::external_body]
pub struct ExMessage(markdown::message::Message);

/// What the markdown compiler produces for a given source text with the
/// engine's fixed option set: the HTML body, or nothing when the compiler
/// rejects the input outright.
pub uninterp spec fn compiled_html(src: Seq<char>) -> Option<Seq<char>>;

/// Relies on markdown::to_html_with_options, called with the engine's fixed,
/// extended rule set (tables, task lists, strikethrough, front-matter,
/// attention, indented code, raw HTML passed through): with fixed options the
/// result depends on the source text alone, and is an error exactly when the
/// compiler rejects the input.
#[verifier::external_body]
fn compile_markdown(src: &str) -> (r: Result<String, markdown::message::Message>)
    ensures
        r is Ok <==> compiled_html(src@) is Some,
        r is Ok ==> r->Ok_0@ == compiled_html(src@)->Some_0,
{
    let mut options = markdown::Options::gfm();
    options.parse.constructs.code_indented = true;
    options.parse.constructs.frontmatter = true;
    options.parse.gfm_strikethrough_single_tilde = true;
    options.compile.allow_dangerous_html = true;
    markdown::to_html_with_options(src, &options)
}

/// Relies on the fields of markdown::message::Message: the compiler's report
/// of a rejected input, moved into the engine's own vocabulary.
#[verifier::external_body]
fn malformed_of(m: markdown::message::Message) -> (r: GlyphoError)
    ensures
        r is Malformed,
{
    let point = m.place.map(|p| match *p {
        markdown::message::Place::Position(pos) => TextPoint {
            line: pos.start.line,
            column: pos.start.column,
        },
        markdown::message::Place::Point(pt) => TextPoint { line: pt.line, column: pt.column },
    });
    GlyphoError::Malformed { point, reason: m.reason, rule_id: *m.rule_id, source: *m.source }
}

/// Compiles markdown source text to an HTML body with the engine's fixed,
/// extended rule set. Returns an error exactly when the compiler rejects the
/// input outright; merely ugly input still compiles.
pub fn render_body(source: &str) -> (r: Result<String, GlyphoError>)
    ensures
        r is Ok <==> compiled_html(source@) is Some,
        r is Ok ==> r->Ok_0@ == compiled_html(source@)->Some_0,
        r is Err ==> r->Err_0 is Malformed,
{
    match compile_markdown(source) {
        Ok(html) => Ok(html),
        Err(m) => Err(malformed_of(m)),
    }
}

/// Holds of a panel that surfaces a rejected markdown input: the compiler's
/// own reason is embedded, never swallowed.
pub open spec fn is_malformed_panel(page: Seq<char>) -> bool {
    exists|reason: Seq<char>|
        page == #[trigger] error_panel_text("Markdown parsing failed: "@ + reason)
}

/// Turns the outcome of reading the watched file into the body for the
/// page's mount point — what a content-patch event carries: the compiled
/// body when everything went well, a visible error panel otherwise. Total —
/// a failed render produces an explicit fallback and never aborts the
/// process.
pub fn render_fragment(read: Result<String, IoKind>) -> (body: String)
    ensures
        read matches Ok(src) ==> {
            &&& compiled_html(src@) is Some ==> body@ == compiled_html(src@)->Some_0
            &&& compiled_html(src@) is None ==> is_malformed_panel(body@) && is_error_panel(body@)
        },
        read matches Err(kind) ==> body@ == error_panel_text(
            error_message_text(GlyphoError::Io { kind }),
        ) && is_error_panel(body@),
{
    match read {
        Ok(src) => {
            match render_body(src.as_str()) {
                Ok(body) => body,
                Err(e) => {
                    let msg = e.message();
                    let panel = error_panel(msg.as_str());
                    proof {
                        let reason = e->Malformed_reason@;
                        assert(panel@ == error_panel_text("Markdown parsing failed: "@ + reason));
                    }
                    panel
                },
            }
        },
        Err(kind) => {
            let msg = io_kind_message(kind);
            error_panel(msg.as_str())
        },
    }
}

/// The render pipeline end to end, after the file read: the full page that a
/// render attempt yields — the compiled body, or the visible error panel,
/// wrapped in the page template. This is the shape of everything the cache
/// publishes and the snapshot routes serve.
pub fn render_outcome(read: Result<String, IoKind>) -> (page: String)
    ensures
        read matches Ok(src) ==> {
            &&& compiled_html(src@) is Some ==> page@ == wrapped_page_text(
                compiled_html(src@)->Some_0,
            )
            &&& compiled_html(src@) is None ==> exists|body: Seq<char>|
                page@ == #[trigger] wrapped_page_text(body) && is_malformed_panel(body)
        },
        read matches Err(kind) ==> page@ == wrapped_page_text(
            error_panel_text(error_message_text(GlyphoError::Io { kind })),
        ),
{
    let body = render_fragment(read);
    wrap_page(body.as_str())
}

} // verus!
