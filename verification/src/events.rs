//! The highlight-event stream: one unit per source slice, category opening,
//! or category closing, with its well-formedness (bounds and nesting).

use vstd::prelude::*;

verus! {

/// One step of a block's token-classification stream.
#[derive(Clone, Copy, PartialEq, Eq, Structural, Debug)]
pub enum HighlightEvent {
    /// The content slice `content[start..end]`.
    Source { start: usize, end: usize },
    /// Opens the category with this index into the category-name table.
    Start { category: usize },
    /// Closes the most recent unmatched `Start`.
    End,
}

/// How many `Start` events the stream holds.
pub open spec fn count_starts(evs: Seq<HighlightEvent>) -> int
    decreases evs.len(),
{
    if evs.len() == 0 {
        0
    } else {
        count_starts(evs.drop_last()) + if evs.last() is Start {
            1int
        } else {
            0int
        }
    }
}

/// How many `End` events the stream holds.
pub open spec fn count_ends(evs: Seq<HighlightEvent>) -> int
    decreases evs.len(),
{
    if evs.len() == 0 {
        0
    } else {
        count_ends(evs.drop_last()) + if evs.last() is End {
            1int
        } else {
            0int
        }
    }
}

/// One event is in bounds: source slices lie within the content, category
/// indices within the table.
pub open spec fn event_in_bounds(ev: HighlightEvent, content_len: nat, table_len: nat) -> bool {
    match ev {
        HighlightEvent::Source { start, end } => start <= end && end <= content_len,
        HighlightEvent::Start { category } => category < table_len,
        HighlightEvent::End => true,
    }
}

/// Every event of the stream is in bounds.
pub open spec fn events_in_bounds(
    evs: Seq<HighlightEvent>,
    content_len: nat,
    table_len: nat,
) -> bool {
    forall|i: int| 0 <= i < evs.len() ==> event_in_bounds(#[trigger] evs[i], content_len, table_len)
}

/// The stream nests like a stack: no prefix closes more categories than it
/// has opened, and the whole stream closes exactly as many as it opens.
pub open spec fn events_balanced(evs: Seq<HighlightEvent>) -> bool {
    &&& forall|i: int|
        0 <= i <= evs.len() ==> count_ends(#[trigger] evs.take(i)) <= count_starts(evs.take(i))
    &&& count_starts(evs) == count_ends(evs)
}

/// A stream the renderer accepts: in bounds and balanced.
pub open spec fn events_wf(evs: Seq<HighlightEvent>, content_len: nat, table_len: nat) -> bool {
    events_in_bounds(evs, content_len, table_len) && events_balanced(evs)
}

/// Taking one more event adds exactly that event's contribution to the counts.
proof fn lemma_counts_take_step(evs: Seq<HighlightEvent>, i: int)
    requires
        0 <= i < evs.len(),
    ensures
        count_starts(evs.take(i + 1)) == count_starts(evs.take(i)) + if evs[i] is Start {
            1int
        } else {
            0int
        },
        count_ends(evs.take(i + 1)) == count_ends(evs.take(i)) + if evs[i] is End {
            1int
        } else {
            0int
        },
{
    assert(evs.take(i + 1).drop_last() =~= evs.take(i));
    assert(evs.take(i + 1).last() == evs[i]);
}

/// Checks that a stream is well formed for the given content length and
/// category table length.
pub fn events_valid(evs: &Vec<HighlightEvent>, content_len: usize, table_len: usize) -> (r: bool)
    ensures
        r == events_wf(evs@, content_len as nat, table_len as nat),
{
    let ghost evseq = evs@;
    let mut depth: usize = 0;
    let mut i: usize = 0;
    while i < evs.len()
        invariant
            evseq == evs@,
            i <= evs@.len(),
            depth <= i,
            depth == count_starts(evs@.take(i as int)) - count_ends(evs@.take(i as int)),
            forall|j: int|
                0 <= j < i ==> event_in_bounds(
                    #[trigger] evs@[j],
                    content_len as nat,
                    table_len as nat,
                ),
            forall|j: int|
                0 <= j <= i ==> count_ends(#[trigger] evs@.take(j)) <= count_starts(evs@.take(j)),
        decreases evs@.len() - i,
    {
        proof {
            lemma_counts_take_step(evs@, i as int);
        }
        match evs[i] {
            HighlightEvent::Source { start, end } => {
                if !(start <= end && end <= content_len) {
                    assert(!event_in_bounds(evs@[i as int], content_len as nat, table_len as nat));
                    return false;
                }
            },
            HighlightEvent::Start { category } => {
                if !(category < table_len) {
                    assert(!event_in_bounds(evs@[i as int], content_len as nat, table_len as nat));
                    return false;
                }
                depth = depth + 1;
            },
            HighlightEvent::End => {
                if depth == 0 {
                    assert(count_ends(evs@.take(i + 1)) > count_starts(evs@.take(i + 1)));
                    return false;
                }
                depth = depth - 1;
            },
        }
        i = i + 1;
    }
    proof {
        assert(evs@.take(evs@.len() as int) =~= evs@);
    }
    depth == 0
}

/// Event balance: a well-formed stream opens exactly as many categories as
/// it closes, and no closing precedes its matching opening.  The renderer
/// emits exactly one opening tag per `Start` and one closing tag per `End`,
/// so the same balance holds of the tags it writes for the stream.
pub proof fn lemma_event_balance(evs: Seq<HighlightEvent>, content_len: nat, table_len: nat)
    requires
        events_wf(evs, content_len, table_len),
    ensures
        count_starts(evs) == count_ends(evs),
        forall|i: int|
            0 <= i <= evs.len() ==> count_ends(#[trigger] evs.take(i)) <= count_starts(evs.take(i)),
{
}

} // verus!
