use mordant::events::{HighlightEvent, events_valid};
use mordant::patch::{BlockReplacement, apply_edits};
use mordant::render::render_block;

fn table() -> Vec<Vec<u8>> {
    vec![b"keyword".to_vec(), b"string".to_vec()]
}

#[test]
fn escaping_on_replaces_entities() {
    let content = b"a<b&c>d".to_vec();
    let events = vec![HighlightEvent::Source { start: 0, end: 7 }];
    let out = render_block(&content, &table(), true, &events);
    assert_eq!(out, b"<pre><code>a&lt;b&amp;c&gt;d\n</code></pre>\n\n".to_vec());
}

#[test]
fn escaping_off_is_verbatim() {
    let content = b"a<b&c>d".to_vec();
    let events = vec![HighlightEvent::Source { start: 0, end: 7 }];
    let out = render_block(&content, &table(), false, &events);
    assert_eq!(out, b"<pre><code>a<b&c>d\n</code></pre>\n\n".to_vec());
}

#[test]
fn tags_wrap_categories() {
    let content = b"let x".to_vec();
    let events = vec![
        HighlightEvent::Start { category: 0 },
        HighlightEvent::Source { start: 0, end: 3 },
        HighlightEvent::End,
        HighlightEvent::Source { start: 3, end: 5 },
    ];
    let out = render_block(&content, &table(), true, &events);
    assert_eq!(
        out,
        b"<pre><code><span class=\"code-keyword\">let</span> x\n</code></pre>\n\n".to_vec()
    );
}

#[test]
fn nested_tags_close_innermost_first() {
    let content = b"ab".to_vec();
    let events = vec![
        HighlightEvent::Start { category: 0 },
        HighlightEvent::Start { category: 1 },
        HighlightEvent::Source { start: 0, end: 2 },
        HighlightEvent::End,
        HighlightEvent::End,
    ];
    let out = render_block(&content, &table(), false, &events);
    assert_eq!(
        out,
        b"<pre><code><span class=\"code-keyword\"><span class=\"code-string\">ab</span></span>\n</code></pre>\n\n"
            .to_vec()
    );
}

#[test]
fn balanced_stream_is_accepted() {
    let events = vec![
        HighlightEvent::Start { category: 0 },
        HighlightEvent::Source { start: 0, end: 2 },
        HighlightEvent::End,
    ];
    assert!(events_valid(&events, 2, 1));
}

#[test]
fn closing_before_opening_is_rejected() {
    let events = vec![HighlightEvent::End, HighlightEvent::Start { category: 0 }];
    assert!(!events_valid(&events, 0, 1));
}

#[test]
fn unclosed_opening_is_rejected() {
    let events = vec![HighlightEvent::Start { category: 0 }];
    assert!(!events_valid(&events, 0, 1));
}

#[test]
fn out_of_range_category_is_rejected() {
    let events = vec![HighlightEvent::Start { category: 7 }, HighlightEvent::End];
    assert!(!events_valid(&events, 0, 1));
}

#[test]
fn out_of_range_source_is_rejected() {
    let events = vec![HighlightEvent::Source { start: 0, end: 9 }];
    assert!(!events_valid(&events, 2, 1));
}

#[test]
fn rendering_is_deterministic_for_equal_inputs() {
    let content = b"x = 1 & 2".to_vec();
    let events = vec![
        HighlightEvent::Start { category: 1 },
        HighlightEvent::Source { start: 0, end: 9 },
        HighlightEvent::End,
    ];
    let a = render_block(&content, &table(), true, &events);
    let b = render_block(&content, &table(), true, &events);
    assert_eq!(a, b);
}

#[test]
fn patching_shrinking_and_growing_keeps_surroundings() {
    let doc = b"aaXXbbYYcc".to_vec();
    let edits = vec![
        BlockReplacement { start: 2, old_end: 4, formatted: b"Z".to_vec() },
        BlockReplacement { start: 6, old_end: 8, formatted: b"WWWW".to_vec() },
    ];
    let out = apply_edits(&doc, &edits);
    assert_eq!(out, b"aaZbbWWWWcc".to_vec());
}

#[test]
fn patching_nothing_returns_the_document() {
    let doc = b"no fences here".to_vec();
    let out = apply_edits(&doc, &Vec::new());
    assert_eq!(out, doc);
}

#[test]
fn patching_at_document_edges() {
    let doc = b"XXmiddleYY".to_vec();
    let edits = vec![
        BlockReplacement { start: 0, old_end: 2, formatted: b"start".to_vec() },
        BlockReplacement { start: 8, old_end: 10, formatted: b"end".to_vec() },
    ];
    let out = apply_edits(&doc, &edits);
    assert_eq!(out, b"startmiddleend".to_vec());
}

#[test]
fn empty_events_render_only_the_frame() {
    let content = b"abc".to_vec();
    let out = render_block(&content, &table(), true, &Vec::new());
    assert_eq!(out, b"<pre><code>\n</code></pre>\n\n".to_vec());
}
