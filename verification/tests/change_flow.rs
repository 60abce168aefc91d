//! The change-detection and streaming flow: debouncing, filtering, the
//! shared cache, and per-connection stream synchronization.

use glypho::cache::InnerState;
use glypho::debounce::DebounceWindow;
use glypho::errors::IoKind;
use glypho::filter::{ChangeEvent, ChangeKind, batch_matches, filter_and_mark};
use glypho::page::wrap_page;
use glypho::render::render_fragment;
use glypho::sync::{StreamItem, StreamSync, heartbeat_payload, mount_selector, post_process_script};

fn modified(path: &str) -> ChangeEvent {
    ChangeEvent { path: String::from(path), kind: ChangeKind::Modified }
}

fn count_content_patches(items: &[StreamItem]) -> usize {
    items
        .iter()
        .filter(|it| matches!(it, StreamItem::ContentPatch { .. }))
        .count()
}

#[test]
fn burst_of_writes_coalesces_into_one_patch() {
    // Five writes within 200 ms, quiet period one second: exactly one batch,
    // and exactly one content-patch event.
    let mut window = DebounceWindow::new(1000, None);
    let mut state = InnerState::new(
        String::from("/tmp/docs/notes.md"),
        render_fragment(Ok(String::from("hello"))),
    );
    let mut stream = StreamSync::connect(state.rendered_body());

    let times = [0u64, 50, 100, 150, 200];
    let mut patches = 0usize;
    for t in times {
        window.on_event(t, modified("/tmp/docs/notes.md"));
        // A poll right after each write: the quiet period has not passed.
        assert!(window.poll(t + 10).is_none());
    }
    // Still inside the quiet window of the last write.
    assert!(window.poll(1150).is_none());

    // The window closes: one batch carrying all five events.
    let batch = window.poll(1200).expect("the quiet window has closed");
    assert_eq!(batch.len(), 5);

    if filter_and_mark(&batch, "notes.md", &mut state) {
        if state.take_marker() {
            let items = stream.emit_render(&mut state, Ok(String::from("hello v2")));
            patches += count_content_patches(&items);
        }
    }
    assert_eq!(patches, 1);

    // Nothing further flushes until new activity.
    assert!(window.poll(5000).is_none());
    assert!(!state.take_marker());
    let idle = stream.emit_idle(&state);
    assert_eq!(idle.len(), 1);
    assert!(matches!(idle[0], StreamItem::Heartbeat));
}

#[test]
fn forced_flush_under_continuous_activity() {
    // Quiet period one second, ceiling half a second: ongoing activity still
    // flushes once the ceiling passes.
    let mut window = DebounceWindow::new(1000, Some(500));
    window.on_event(0, modified("/tmp/docs/notes.md"));
    window.on_event(400, modified("/tmp/docs/notes.md"));
    assert!(window.poll(450).is_none());
    let batch = window.poll(600).expect("the ceiling has passed");
    assert_eq!(batch.len(), 2);
}

#[test]
fn snapshot_is_idempotent() {
    let state = InnerState::new(
        String::from("/tmp/docs/notes.md"),
        String::from("<p>hello</p>"),
    );
    let first = state.snapshot();
    let second = state.snapshot();
    assert_eq!(first, second);
    // The snapshot is the full page: the rendered body wrapped in the
    // template.
    assert_eq!(first, wrap_page(&state.rendered_body()));
}

#[test]
fn filter_ignores_sibling_files() {
    let mut state = InnerState::new(String::from("/tmp/docs/notes.md"), String::new());

    let sibling_batch = vec![modified("/tmp/docs/other.txt")];
    assert!(!batch_matches(&sibling_batch, "notes.md"));
    assert!(!filter_and_mark(&sibling_batch, "notes.md", &mut state));
    assert!(!state.take_marker());

    let own_batch = vec![
        modified("/tmp/docs/other.txt"),
        ChangeEvent { path: String::from("/tmp/docs/notes.md"), kind: ChangeKind::Created },
    ];
    assert!(batch_matches(&own_batch, "notes.md"));
    assert!(filter_and_mark(&own_batch, "notes.md", &mut state));
    assert!(state.take_marker());
    assert!(!state.take_marker());
}

#[test]
fn filter_matches_by_filename_component_only() {
    // The same name in a different directory still matches: the filter
    // compares filename components, not full paths.
    let batch = vec![modified("/elsewhere/notes.md")];
    assert!(batch_matches(&batch, "notes.md"));
    // A path with no extractable filename component matches nothing.
    let degenerate = vec![modified("/tmp/docs/"), modified("/tmp/docs/..")];
    assert!(!batch_matches(&degenerate, "notes.md"));
}

#[test]
fn readers_always_observe_a_complete_page() {
    // Serialized reads interleaved with one publish: every observation is one
    // of the two complete pages, never a mixture.
    let old_body = String::from("<p>old old old</p>");
    let new_body = String::from("<p>new</p>");
    let old_page = wrap_page(&old_body);
    let new_page = wrap_page(&new_body);
    let mut state = InnerState::new(String::from("/tmp/docs/notes.md"), old_body);

    let mut observations = Vec::new();
    observations.push(state.snapshot());
    observations.push(state.snapshot());
    state.publish(new_body);
    observations.push(state.snapshot());
    observations.push(state.snapshot());

    for obs in &observations {
        assert!(*obs == old_page || *obs == new_page);
    }
    assert_eq!(observations[0], old_page);
    assert_eq!(observations[3], new_page);
}

#[test]
fn deleted_file_renders_panel_and_recovers() {
    let mut state = InnerState::new(
        String::from("/tmp/docs/notes.md"),
        render_fragment(Ok(String::from("hello"))),
    );
    assert_eq!(state.rendered_body(), "<p>hello</p>");
    assert_eq!(state.snapshot(), wrap_page("<p>hello</p>"));

    // The file disappears mid-session: the next render is an error page and
    // the cache keeps serving.
    let page = state.apply_render(Err(IoKind::NotFound));
    assert_eq!(
        state.rendered_body(),
        "<div class=\"error-panel\">The file or directory does not exist</div>"
    );
    assert_eq!(page, wrap_page(&state.rendered_body()));
    assert_eq!(state.snapshot(), page);

    // The file reappears: the next debounced render recovers.
    let recovered = state.apply_render(Ok(String::from("hello again")));
    assert_eq!(state.rendered_body(), "<p>hello again</p>");
    assert_eq!(recovered, wrap_page("<p>hello again</p>"));
    assert_eq!(state.snapshot(), recovered);
}

#[test]
fn end_to_end_edit_reaches_the_stream_once() {
    // Start with a file containing "hello"; a client connects; the file is
    // edited to "hello world"; the client receives exactly one content patch
    // and one following script directive, then heartbeats again.
    let mut state = InnerState::new(
        String::from("/tmp/docs/notes.md"),
        render_fragment(Ok(String::from("hello"))),
    );
    let mut window = DebounceWindow::new(1000, None);
    let mut stream = StreamSync::connect(state.rendered_body());

    // Connected and idle: heartbeats only.
    assert!(!state.take_marker());
    let idle = stream.emit_idle(&state);
    assert_eq!(idle.len(), 1);
    assert!(matches!(idle[0], StreamItem::Heartbeat));

    // The edit lands on disk.
    window.on_event(2000, modified("/tmp/docs/notes.md"));
    let batch = window.poll(3000).expect("the quiet window has closed");
    assert!(filter_and_mark(&batch, "notes.md", &mut state));

    // The next poll tick sees the marker and renders.
    assert!(state.take_marker());
    let items = stream.emit_render(&mut state, Ok(String::from("hello world")));
    assert_eq!(items.len(), 2);
    match &items[0] {
        StreamItem::ContentPatch { html } => assert!(html.contains("<p>hello world</p>")),
        _ => panic!("expected a content patch"),
    }
    match &items[1] {
        StreamItem::ScriptDirective { script } => assert_eq!(*script, post_process_script()),
        _ => panic!("expected a script directive"),
    }

    // Back to heartbeats until the next edit.
    assert!(!state.take_marker());
    let idle = stream.emit_idle(&state);
    assert_eq!(idle.len(), 1);
    assert!(matches!(idle[0], StreamItem::Heartbeat));
}

#[test]
fn slower_stream_catches_up_without_racing_the_marker() {
    // Two clients: one wins the marker and renders; the other sees the marker
    // already clear but still converges to the latest page.
    let mut state = InnerState::new(
        String::from("/tmp/docs/notes.md"),
        render_fragment(Ok(String::from("hello"))),
    );
    let mut fast = StreamSync::connect(state.rendered_body());
    let mut slow = StreamSync::connect(state.rendered_body());

    state.mark_changed();

    // The fast stream wins the test-and-clear and renders.
    assert!(state.take_marker());
    let fast_items = fast.emit_render(&mut state, Ok(String::from("fresh")));
    assert_eq!(count_content_patches(&fast_items), 1);

    // The slow stream finds the marker clear, yet catches up on the new page.
    assert!(!state.take_marker());
    let slow_items = slow.emit_idle(&state);
    assert_eq!(slow_items.len(), 2);
    match &slow_items[0] {
        StreamItem::ContentPatch { html } => assert_eq!(*html, "<p>fresh</p>"),
        _ => panic!("expected a content patch"),
    }
    assert!(matches!(slow_items[1], StreamItem::ScriptDirective { .. }));

    // Both streams now heartbeat.
    let fast_idle = fast.emit_idle(&state);
    let slow_idle = slow.emit_idle(&state);
    assert!(matches!(fast_idle[0], StreamItem::Heartbeat));
    assert!(matches!(slow_idle[0], StreamItem::Heartbeat));
}

#[test]
fn stream_constants_are_fixed() {
    assert_eq!(mount_selector(), "article#markdown");
    assert_eq!(
        post_process_script(),
        "Prism.highlightAllUnder(document.querySelector('article#markdown'));MathJax.typeset();"
    );
    assert_eq!(heartbeat_payload(), "false");
}
