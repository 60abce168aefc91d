//! The stream synchronizer: one instance per client connection, turning "has
//! the document changed since I last checked" into an ordered sequence of
//! protocol events.
//!
//! Each poll tick the caller reads-and-clears the change marker
//! ([`crate::cache::InnerState::take_marker`]). The stream that saw the
//! marker set renders and publishes under exclusive access
//! ([`StreamSync::emit_render`]); every other stream only compares the
//! published page against what it last sent ([`StreamSync::emit_idle`]), so
//! no client starves another: each converges independently to the latest
//! render. A new render is emitted as one content patch carrying the rendered
//! body (the cache publishes that body wrapped in the page template),
//! immediately followed by one script directive; an unchanged render as one
//! heartbeat, so the client can tell "no change" from "change". Within one
//! connection the emitted items are strictly ordered;
//! [`well_ordered_emission`] is the shape every emission has.

use vstd::prelude::*;

use crate::cache::InnerState;
use crate::errors::{GlyphoError, IoKind, error_message_text};
use crate::page::{error_panel_text, is_error_panel, wrapped_page_text};
use crate::render::{compiled_html, is_malformed_panel};

verus! {

/// One item of a client's event stream.
pub enum StreamItem {
    /// A full replacement body for the mount point — whole-body replace, not
    /// a diff.
    ContentPatch { html: String },
    /// A directive to re-run client-side post-processing over the newly
    /// inserted content.
    ScriptDirective { script: String },
    /// A no-op liveness signal: nothing changed since the last tick.
    Heartbeat,
}

/// The CSS selector of the mount point that content patches address.
pub open spec fn mount_selector_text() -> Seq<char> {
    "article#markdown"@
}

/// The CSS selector of the mount point that content patches address.
pub fn mount_selector() -> (r: String)
    ensures
        r@ == mount_selector_text(),
{
    "article#markdown".to_owned()
}

/// The client-side post-processing run after each content patch: syntax
/// highlighting and math typesetting over the mount point.
pub open spec fn post_process_script_text() -> Seq<char> {
    "Prism.highlightAllUnder(document.querySelector('article#markdown'));MathJax.typeset();"@
}

/// The script each content patch is followed by.
pub fn post_process_script() -> (r: String)
    ensures
        r@ == post_process_script_text(),
{
    "Prism.highlightAllUnder(document.querySelector('article#markdown'));MathJax.typeset();".to_owned()
}

/// The sentinel payload of a heartbeat: distinct from any content patch, so
/// the client can ignore it.
pub open spec fn heartbeat_payload_text() -> Seq<char> {
    "false"@
}

/// The sentinel payload of a heartbeat.
pub fn heartbeat_payload() -> (r: String)
    ensures
        r@ == heartbeat_payload_text(),
{
    "false".to_owned()
}

/// Every content patch is immediately followed by its script directive:
/// the client never inserts a body without re-running post-processing on it.
pub open spec fn well_ordered_emission(items: Seq<StreamItem>) -> bool {
    forall|i: int|
        0 <= i < items.len() && #[trigger] items[i] is ContentPatch ==> i + 1 < items.len()
            && items[i + 1] is ScriptDirective
}

/// The per-connection stream state: what this client was last sent, so that
/// a stream which lost the race for the change marker still catches up on
/// the next tick instead of starving.
pub struct StreamSync {
    last_sent: String,
}

impl StreamSync {
    /// The rendered body this client last received (initially the one its
    /// first paint showed).
    pub closed spec fn last_sent(&self) -> Seq<char> {
        self.last_sent@
    }

    /// Starts a stream for a client whose first paint shows `body`.
    pub fn connect(body: String) -> (s: Self)
        ensures
            s.last_sent() == body@,
    {
        StreamSync { last_sent: body }
    }

    /// Publishes a body that was rendered into a local value — so no lock on
    /// the cache was ever held across the markdown compile — and emits it.
    /// The cache's page becomes that body wrapped in the page template; the
    /// emission is one content patch carrying the body (addressed to the
    /// mount point, whole-body replace), immediately followed by one script
    /// directive.
    pub fn emit_page(&mut self, cache: &mut InnerState, body: String) -> (items: Vec<StreamItem>)
        ensures
            final(cache).body() == body@,
            final(cache).page() == wrapped_page_text(body@),
            final(cache).marker() == old(cache).marker(),
            final(cache).path() == old(cache).path(),
            final(self).last_sent() == final(cache).body(),
            items@.len() == 2,
            items@[0] matches StreamItem::ContentPatch { html } && html@ == final(cache).body(),
            items@[1] matches StreamItem::ScriptDirective { script } && script@
                == post_process_script_text(),
            well_ordered_emission(items@),
            !(items@.last() is ContentPatch),
    {
        cache.publish(body.clone());
        self.last_sent = body.clone();
        let mut items: Vec<StreamItem> = Vec::new();
        items.push(StreamItem::ContentPatch { html: body });
        items.push(StreamItem::ScriptDirective { script: post_process_script() });
        items
    }

    /// The tick that won the race: the change marker was set, the caller
    /// read the watched file, and this stream renders, publishes and emits.
    /// The published page is the rendered body wrapped in the page template;
    /// the emission is one content patch carrying that body, immediately
    /// followed by one script directive.
    pub fn emit_render(&mut self, cache: &mut InnerState, read: Result<String, IoKind>) -> (items:
        Vec<StreamItem>)
        ensures
            final(cache).marker() == old(cache).marker(),
            final(cache).path() == old(cache).path(),
            final(cache).page() == wrapped_page_text(final(cache).body()),
            read matches Ok(src) ==> {
                &&& compiled_html(src@) is Some ==> final(cache).body() == compiled_html(
                    src@,
                )->Some_0
                &&& compiled_html(src@) is None ==> is_malformed_panel(final(cache).body())
                    && is_error_panel(final(cache).body())
            },
            read matches Err(kind) ==> final(cache).body() == error_panel_text(
                error_message_text(GlyphoError::Io { kind }),
            ) && is_error_panel(final(cache).body()),
            final(self).last_sent() == final(cache).body(),
            items@.len() == 2,
            items@[0] matches StreamItem::ContentPatch { html } && html@ == final(cache).body(),
            items@[1] matches StreamItem::ScriptDirective { script } && script@
                == post_process_script_text(),
            well_ordered_emission(items@),
            !(items@.last() is ContentPatch),
    {
        let body = crate::render::render_fragment(read);
        self.emit_page(cache, body)
    }

    /// A tick on which this stream saw the marker clear. If another stream
    /// published a render this client has not seen, catch up with the same
    /// patch-then-script pair; otherwise emit one heartbeat, so the client
    /// can tell "no change" from "change".
    pub fn emit_idle(&mut self, cache: &InnerState) -> (items: Vec<StreamItem>)
        ensures
            final(self).last_sent() == cache.body(),
            old(self).last_sent() == cache.body() ==> items@ =~= seq![StreamItem::Heartbeat],
            old(self).last_sent() != cache.body() ==> {
                &&& items@.len() == 2
                &&& items@[0] matches StreamItem::ContentPatch { html } && html@ == cache.body()
                &&& items@[1] matches StreamItem::ScriptDirective { script } && script@
                    == post_process_script_text()
            },
            items@.len() > 0 && !(items@.last() is ContentPatch),
            well_ordered_emission(items@),
    {
        let body = cache.rendered_body();
        let mut items: Vec<StreamItem> = Vec::new();
        if self.last_sent == body {
            items.push(StreamItem::Heartbeat);
        } else {
            self.last_sent = body.clone();
            items.push(StreamItem::ContentPatch { html: body });
            items.push(StreamItem::ScriptDirective { script: post_process_script() });
        }
        items
    }
}

/// Pairing survives across ticks: when an emission does not end in a content
/// patch (none of this library's do), appending the next well-ordered
/// emission keeps the whole stream well-ordered — so over a session, every
/// content patch a client receives is still immediately followed by its
/// script directive, with no reordering.
pub proof fn lemma_emissions_concat(a: Seq<StreamItem>, b: Seq<StreamItem>)
    requires
        well_ordered_emission(a),
        well_ordered_emission(b),
        a.len() > 0 ==> !(a.last() is ContentPatch),
    ensures
        well_ordered_emission(a + b),
{
    assert forall|i: int|
        0 <= i < (a + b).len() && #[trigger] (a + b)[i] is ContentPatch implies i + 1 < (
    a + b).len() && (a + b)[i + 1] is ScriptDirective by {
        if i < a.len() {
            assert((a + b)[i] == a[i]);
            assert(i + 1 < a.len());
            assert((a + b)[i + 1] == a[i + 1]);
        } else {
            assert((a + b)[i] == b[i - a.len()]);
            assert((a + b)[i + 1] == b[i + 1 - a.len()]);
        }
    }
}

} // verus!
