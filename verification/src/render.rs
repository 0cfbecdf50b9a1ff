//! Rendering one block's highlight-event stream into wrapped markup.

use vstd::prelude::*;
use crate::buf::{append_range, append_slice};
use crate::events::{HighlightEvent, events_in_bounds};
use vstd::string::StringSliceAdditionalSpecFns;

verus! {

/// The fixed opening of the block container.
pub open spec fn wrapper_open() -> Seq<u8> {
    "<pre><code>".spec_bytes()
}

/// The fixed closing of the block container, with the trailing blank line.
pub open spec fn wrapper_close() -> Seq<u8> {
    "\n</code></pre>\n\n".spec_bytes()
}

/// What an opening tag puts before the category name.
pub open spec fn span_open_before() -> Seq<u8> {
    "<span class=\"code-".spec_bytes()
}

/// What an opening tag puts after the category name.
pub open spec fn span_open_after() -> Seq<u8> {
    "\">".spec_bytes()
}

/// The fixed closing tag.
pub open spec fn span_close() -> Seq<u8> {
    "</span>".spec_bytes()
}

/// How one content byte renders under escaping: `&`, `<` and `>` become
/// their entity forms and every other byte stands as it is.
pub open spec fn escaped_byte(b: u8) -> Seq<u8> {
    if b == 38 {
        "&amp;".spec_bytes()
    } else if b == 60 {
        "&lt;".spec_bytes()
    } else if b == 62 {
        "&gt;".spec_bytes()
    } else {
        seq![b]
    }
}

/// A byte sequence with `&`, `<`, `>` replaced by their entity forms.
pub open spec fn escaped(s: Seq<u8>) -> Seq<u8>
    decreases s.len(),
{
    if s.len() == 0 {
        Seq::empty()
    } else {
        escaped_byte(s[0]) + escaped(s.drop_first())
    }
}

/// Escaping distributes over concatenation.
pub proof fn lemma_escaped_concat(a: Seq<u8>, b: Seq<u8>)
    ensures
        escaped(a + b) == escaped(a) + escaped(b),
    decreases a.len(),
{
    if a.len() == 0 {
        assert(a + b =~= b);
        assert(escaped(a) + escaped(b) =~= escaped(b));
    } else {
        assert((a + b).drop_first() =~= a.drop_first() + b);
        lemma_escaped_concat(a.drop_first(), b);
        assert(escaped(a + b) =~= escaped(a) + escaped(b));
    }
}

/// What one event renders to: a (possibly escaped) content slice, an opening
/// tag carrying the category's class name, or the fixed closing tag.
pub open spec fn rendered_event(
    content: Seq<u8>,
    table: Seq<Seq<u8>>,
    escape: bool,
    ev: HighlightEvent,
) -> Seq<u8> {
    match ev {
        HighlightEvent::Source { start, end } => if escape {
            escaped(content.subrange(start as int, end as int))
        } else {
            content.subrange(start as int, end as int)
        },
        HighlightEvent::Start { category } => span_open_before() + table[category as int]
            + span_open_after(),
        HighlightEvent::End => span_close(),
    }
}

/// The body rendered for a stream: the events' renderings in order.
pub open spec fn rendered_events(
    content: Seq<u8>,
    table: Seq<Seq<u8>>,
    escape: bool,
    evs: Seq<HighlightEvent>,
) -> Seq<u8>
    decreases evs.len(),
{
    if evs.len() == 0 {
        Seq::empty()
    } else {
        rendered_event(content, table, escape, evs[0]) + rendered_events(
            content,
            table,
            escape,
            evs.drop_first(),
        )
    }
}

/// Appending one event to the stream appends its rendering to the body.
pub proof fn lemma_rendered_events_snoc(
    content: Seq<u8>,
    table: Seq<Seq<u8>>,
    escape: bool,
    evs: Seq<HighlightEvent>,
    ev: HighlightEvent,
)
    ensures
        rendered_events(content, table, escape, evs.push(ev)) == rendered_events(
            content,
            table,
            escape,
            evs,
        ) + rendered_event(content, table, escape, ev),
    decreases evs.len(),
{
    if evs.len() == 0 {
        assert(evs.push(ev).drop_first() =~= Seq::<HighlightEvent>::empty());
        assert(evs.push(ev)[0] == ev);
        assert(rendered_events(content, table, escape, Seq::<HighlightEvent>::empty())
            == Seq::<u8>::empty());
        assert(rendered_events(content, table, escape, evs.push(ev)) == rendered_event(
            content,
            table,
            escape,
            ev,
        ) + rendered_events(content, table, escape, evs.push(ev).drop_first()));
        assert(rendered_events(content, table, escape, evs.push(ev)) =~= rendered_events(
            content,
            table,
            escape,
            evs,
        ) + rendered_event(content, table, escape, ev));
    } else {
        assert(evs.push(ev).drop_first() =~= evs.drop_first().push(ev));
        lemma_rendered_events_snoc(content, table, escape, evs.drop_first(), ev);
        assert(rendered_events(content, table, escape, evs.push(ev)) =~= rendered_events(
            content,
            table,
            escape,
            evs,
        ) + rendered_event(content, table, escape, ev));
    }
}

/// A whole rendered block: the fixed container around the rendered body.
pub open spec fn rendered_block(
    content: Seq<u8>,
    table: Seq<Seq<u8>>,
    escape: bool,
    evs: Seq<HighlightEvent>,
) -> Seq<u8> {
    wrapper_open() + rendered_events(content, table, escape, evs) + wrapper_close()
}

/// Copies `src[a..b]` onto the end of `out`, escaping `&`, `<` and `>`.
fn push_escaped_range(out: &mut Vec<u8>, src: &Vec<u8>, a: usize, b: usize)
    requires
        a <= b,
        b <= src@.len(),
    ensures
        final(out)@ == old(out)@ + escaped(src@.subrange(a as int, b as int)),
{
    let mut j: usize = a;
    while j < b
        invariant
            a <= j <= b <= src@.len(),
            out@ == old(out)@ + escaped(src@.subrange(a as int, j as int)),
        decreases b - j,
    {
        let c = src[j];
        if c == 38 {
            append_slice(out, "&amp;".as_bytes());
        } else if c == 60 {
            append_slice(out, "&lt;".as_bytes());
        } else if c == 62 {
            append_slice(out, "&gt;".as_bytes());
        } else {
            out.push(c);
        }
        proof {
            let s = src@;
            assert(s.subrange(a as int, j + 1 as int) =~= s.subrange(a as int, j as int) + seq![
                s[j as int],
            ]);
            lemma_escaped_concat(s.subrange(a as int, j as int), seq![s[j as int]]);
            let single = seq![s[j as int]];
            assert(single.drop_first() =~= Seq::<u8>::empty());
            assert(escaped(Seq::<u8>::empty()) == Seq::<u8>::empty());
            assert(escaped(single) == escaped_byte(single[0]) + escaped(single.drop_first()));
            assert(single[0] == s[j as int]);
            assert(escaped(single) =~= escaped_byte(s[j as int]));
        }
        j = j + 1;
    }
}

/// Renders one block's event stream into the fixed container: content
/// slices (escaped when the configuration says so), an opening tag of class
/// `code-` plus the category's name per `Start`, the closing tag per `End`.
pub fn render_block(
    content: &Vec<u8>,
    table: &Vec<Vec<u8>>,
    escape: bool,
    events: &Vec<HighlightEvent>,
) -> (out: Vec<u8>)
    requires
        events_in_bounds(events@, content@.len(), table@.len()),
    ensures
        out@ == rendered_block(content@, table.deep_view(), escape, events@),
{
    let ghost tview = table.deep_view();
    let mut out: Vec<u8> = Vec::new();
    append_slice(&mut out, "<pre><code>".as_bytes());
    let mut i: usize = 0;
    while i < events.len()
        invariant
            tview == table.deep_view(),
            events_in_bounds(events@, content@.len(), table@.len()),
            i <= events@.len(),
            out@ == wrapper_open() + rendered_events(content@, tview, escape, events@.take(
                i as int,
            )),
        decreases events@.len() - i,
    {
        let ghost before = out@;
        match events[i] {
            HighlightEvent::Source { start, end } => {
                assert(crate::events::event_in_bounds(
                    events@[i as int],
                    content@.len(),
                    table@.len(),
                ));
                if escape {
                    push_escaped_range(&mut out, content, start, end);
                } else {
                    append_range(&mut out, content, start, end);
                }
            },
            HighlightEvent::Start { category } => {
                assert(crate::events::event_in_bounds(
                    events@[i as int],
                    content@.len(),
                    table@.len(),
                ));
                append_slice(&mut out, "<span class=\"code-".as_bytes());
                let name = &table[category];
                append_range(&mut out, name, 0, name.len());
                append_slice(&mut out, "\">".as_bytes());
                proof {
                    assert(tview[category as int] == table@[category as int]@);
                    assert(table@[category as int]@.subrange(
                        0,
                        table@[category as int]@.len() as int,
                    ) =~= table@[category as int]@);
                }
            },
            HighlightEvent::End => {
                append_slice(&mut out, "</span>".as_bytes());
            },
        }
        proof {
            assert(out@ =~= before + rendered_event(content@, tview, escape, events@[i as int]));
            assert(events@.take(i + 1) =~= events@.take(i as int).push(events@[i as int]));
            lemma_rendered_events_snoc(
                content@,
                tview,
                escape,
                events@.take(i as int),
                events@[i as int],
            );
        }
        i = i + 1;
    }
    proof {
        assert(events@.take(events@.len() as int) =~= events@);
    }
    append_slice(&mut out, "\n</code></pre>\n\n".as_bytes());
    out
}

/// Escaping contract: with the flag set a source slice renders with `&`,
/// `<`, `>` replaced by `&amp;`, `&lt;`, `&gt;`; with the flag clear it
/// renders verbatim.
pub proof fn lemma_escaping(content: Seq<u8>, table: Seq<Seq<u8>>, start: usize, end: usize)
    requires
        start <= end <= content.len(),
    ensures
        rendered_event(content, table, true, HighlightEvent::Source { start, end }) == escaped(
            content.subrange(start as int, end as int),
        ),
        rendered_event(content, table, false, HighlightEvent::Source { start, end })
            == content.subrange(start as int, end as int),
{
}

/// Determinism: the rendering of a block is a function of the content, the
/// category table, the escape flag and the event stream alone; identical
/// pairs render to byte-identical output.
pub proof fn lemma_render_deterministic(
    content1: Seq<u8>,
    table1: Seq<Seq<u8>>,
    escape1: bool,
    evs1: Seq<HighlightEvent>,
    content2: Seq<u8>,
    table2: Seq<Seq<u8>>,
    escape2: bool,
    evs2: Seq<HighlightEvent>,
)
    requires
        content1 == content2,
        table1 == table2,
        escape1 == escape2,
        evs1 == evs2,
    ensures
        rendered_block(content1, table1, escape1, evs1) == rendered_block(
            content2,
            table2,
            escape2,
            evs2,
        ),
{
}

/// A byte string framed by the fixed container: it begins with the opening
/// wrapper and ends with the closing wrapper.
pub open spec fn is_wrapped(s: Seq<u8>) -> bool {
    &&& s.len() >= wrapper_open().len() + wrapper_close().len()
    &&& s.subrange(0, wrapper_open().len() as int) == wrapper_open()
    &&& s.subrange(s.len() - wrapper_close().len(), s.len() as int) == wrapper_close()
}

/// Every rendered block is framed by the fixed container.
pub proof fn lemma_rendered_block_is_wrapped(
    content: Seq<u8>,
    table: Seq<Seq<u8>>,
    escape: bool,
    evs: Seq<HighlightEvent>,
)
    ensures
        is_wrapped(rendered_block(content, table, escape, evs)),
{
    let s = rendered_block(content, table, escape, evs);
    let body = rendered_events(content, table, escape, evs);
    assert(s.subrange(0, wrapper_open().len() as int) =~= wrapper_open());
    assert(s.subrange(s.len() - wrapper_close().len(), s.len() as int) =~= wrapper_close());
}

} // verus!
