//! The document cache: the one mutable slot all readers and writers share.
//!
//! The cache owns the last successfully published render and the change
//! marker ("a render newer than what any client has seen may exist"). What it
//! holds is always full-page HTML — the rendered body, or an error panel,
//! wrapped in the page template — together with that body itself, which is
//! what content-patch events carry. A page is only ever replaced as a whole
//! value, never mutated in place, so a snapshot is always a complete render —
//! the contracts of [`InnerState::publish`] and [`InnerState::snapshot`] say
//! exactly that. The marker is read-and-cleared, never merely read, so an
//! arbitrary burst of edits collapses into exactly one re-render.
//!
//! The callers outside the library hold one `InnerState` behind a lock; every
//! operation here is a single short step under that lock, and none spans the
//! markdown compile itself (rendering happens into a local value, which is
//! then published).

use vstd::prelude::*;

use crate::errors::{GlyphoError, IoKind, error_message_text};
use crate::page::{error_panel_text, is_error_panel, wrap_page, wrapped_page_text};
use crate::render::{compiled_html, is_malformed_panel, render_fragment};

verus! {

/// The shared state of the engine: the watched document's path, the last
/// published render, and the change marker.
pub struct InnerState {
    file: String,
    body: String,
    rendered: String,
    pending: bool,
}

impl InnerState {
    /// The path of the watched document; set once, immutable thereafter.
    pub closed spec fn path(&self) -> Seq<char> {
        self.file@
    }

    /// The body of the last published render: what a content patch carries.
    pub closed spec fn body(&self) -> Seq<char> {
        self.body@
    }

    /// The last published page: always the body wrapped in the page template,
    /// full-page HTML or a full error page.
    pub closed spec fn page(&self) -> Seq<char> {
        self.rendered@
    }

    /// The change marker: true when a render newer than what any client has
    /// seen may exist.
    pub closed spec fn marker(&self) -> bool {
        self.pending
    }

    /// Creates the cache for one document, with the rendered body it starts
    /// from; the stored page is that body wrapped in the page template. The
    /// marker starts clear: nothing is newer than what was just stored.
    pub fn new(file: String, body: String) -> (s: Self)
        ensures
            s.path() == file@,
            s.body() == body@,
            s.page() == wrapped_page_text(body@),
            !s.marker(),
    {
        let rendered = wrap_page(body.as_str());
        InnerState { file, body, rendered, pending: false }
    }

    /// The watched document's path.
    pub fn file(&self) -> (r: &String)
        ensures
            r@ == self.path(),
    {
        &self.file
    }

    /// Returns the current full page without blocking on a fresh render:
    /// always a complete, previously published value.
    pub fn snapshot(&self) -> (p: String)
        ensures
            p@ == self.page(),
    {
        self.rendered.clone()
    }

    /// Returns the body of the current page: what a content patch addressed
    /// to the mount point carries.
    pub fn rendered_body(&self) -> (b: String)
        ensures
            b@ == self.body(),
    {
        self.body.clone()
    }

    /// Sets the change marker. Called when a change batch concerns the
    /// watched document.
    pub fn mark_changed(&mut self)
        ensures
            final(self).marker(),
            final(self).body() == old(self).body(),
            final(self).page() == old(self).page(),
            final(self).path() == old(self).path(),
    {
        self.pending = true;
    }

    /// Reads and clears the change marker in one step. Only this test-and-
    /// reset observes the marker, so of all streams polling concurrently
    /// exactly one sees a given change.
    pub fn take_marker(&mut self) -> (was: bool)
        ensures
            was == old(self).marker(),
            !final(self).marker(),
            final(self).body() == old(self).body(),
            final(self).page() == old(self).page(),
            final(self).path() == old(self).path(),
    {
        let was = self.pending;
        self.pending = false;
        was
    }

    /// Publishes a freshly rendered body: the stored page becomes that body
    /// wrapped in the page template, replaced as a whole value. The only
    /// operation that changes what snapshots return.
    pub fn publish(&mut self, body: String)
        ensures
            final(self).body() == body@,
            final(self).page() == wrapped_page_text(body@),
            final(self).marker() == old(self).marker(),
            final(self).path() == old(self).path(),
    {
        self.rendered = wrap_page(body.as_str());
        self.body = body;
    }

    /// Renders the outcome of a file read and publishes the result: the
    /// compiled body, or a visible error panel, wrapped in the page template
    /// — the cache is never left stale while a failure is signalled as
    /// success. Returns the published page.
    pub fn apply_render(&mut self, read: Result<String, IoKind>) -> (page: String)
        ensures
            page@ == final(self).page(),
            final(self).page() == wrapped_page_text(final(self).body()),
            final(self).marker() == old(self).marker(),
            final(self).path() == old(self).path(),
            read matches Ok(src) ==> {
                &&& compiled_html(src@) is Some ==> final(self).body() == compiled_html(
                    src@,
                )->Some_0
                &&& compiled_html(src@) is None ==> is_malformed_panel(final(self).body())
                    && is_error_panel(final(self).body())
            },
            read matches Err(kind) ==> final(self).body() == error_panel_text(
                error_message_text(GlyphoError::Io { kind }),
            ) && is_error_panel(final(self).body()),
    {
        let body = render_fragment(read);
        self.publish(body);
        self.snapshot()
    }
}

/// Idempotence of snapshots: with no publish in between, two snapshots of
/// the cache are byte-identical — both are exactly the published page.
pub proof fn lemma_snapshot_idempotent(s: InnerState, p1: Seq<char>, p2: Seq<char>)
    requires
        p1 == s.page(),
        p2 == s.page(),
    ensures
        p1 == p2,
{
}

/// The page that stands in the cache after a serialized run of publishes,
/// starting from `initial`.
pub open spec fn last_published(initial: Seq<char>, published: Seq<Seq<char>>) -> Seq<char>
    decreases published.len(),
{
    if published.len() == 0 {
        initial
    } else {
        last_published(published[0], published.drop_first())
    }
}

/// No torn reads: after any serialized run of publishes, the page a snapshot
/// observes is exactly one of the complete values that was published (or the
/// initial page when none was) — never a mixture of two renders. Together
/// with [`InnerState::snapshot`]'s contract this covers every reader that
/// interleaves with writers under the cache's lock.
pub proof fn lemma_no_torn_read(initial: Seq<char>, published: Seq<Seq<char>>)
    ensures
        published.len() == 0 ==> last_published(initial, published) == initial,
        published.len() > 0 ==> last_published(initial, published) == published.last(),
    decreases published.len(),
{
    if published.len() > 0 {
        lemma_no_torn_read(published[0], published.drop_first());
        if published.len() > 1 {
            assert(published.drop_first().last() == published.last());
        }
    }
}

} // verus!
