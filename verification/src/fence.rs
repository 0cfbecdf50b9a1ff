//! Fenced code blocks as validated byte spans of the document.

use vstd::prelude::*;

verus! {

/// One fenced code block: the full span, the language-tag span and the
/// content span, as byte offsets into the original document.
#[derive(Clone, Copy, PartialEq, Eq, Structural, Debug)]
pub struct FenceBlock {
    pub full_start: usize,
    pub full_end: usize,
    pub lang_start: usize,
    pub lang_end: usize,
    pub content_start: usize,
    pub content_end: usize,
}

/// The language-tag and content spans lie within the full span, which lies
/// within the document.
pub open spec fn block_wf(b: FenceBlock, doc_len: nat) -> bool {
    &&& b.full_start <= b.lang_start && b.lang_start <= b.lang_end && b.lang_end <= b.full_end
    &&& b.full_start <= b.content_start && b.content_start <= b.content_end && b.content_end
        <= b.full_end
    &&& b.full_end <= doc_len
}

/// Every block is well formed, and the blocks are sorted ascending by start
/// offset and mutually non-overlapping.
pub open spec fn blocks_wf(blocks: Seq<FenceBlock>, doc_len: nat) -> bool {
    &&& forall|i: int| 0 <= i < blocks.len() ==> block_wf(#[trigger] blocks[i], doc_len)
    &&& forall|i: int, j: int|
        0 <= i < j < blocks.len() ==> #[trigger] blocks[i].full_end
            <= #[trigger] blocks[j].full_start
}

/// The block described by one query match of exactly three captures, in
/// order: full block, language tag, content.
pub open spec fn capture_block(m: Seq<(usize, usize)>) -> FenceBlock
    recommends
        m.len() == 3,
{
    FenceBlock {
        full_start: m[0].0,
        full_end: m[0].1,
        lang_start: m[1].0,
        lang_end: m[1].1,
        content_start: m[2].0,
        content_end: m[2].1,
    }
}

/// A match is admissible when it has exactly three captures that form a well
/// formed block starting at or after `min_start`.
pub open spec fn capture_admissible(m: Seq<(usize, usize)>, doc_len: nat, min_start: nat) -> bool {
    &&& m.len() == 3
    &&& block_wf(capture_block(m), doc_len)
    &&& min_start <= capture_block(m).full_start
}

/// The blocks selected from the matches in order, keeping each admissible
/// match and skipping the rest, so that the result is sorted and
/// non-overlapping by construction.
pub open spec fn selected_blocks(
    caps: Seq<Seq<(usize, usize)>>,
    doc_len: nat,
    min_start: nat,
) -> Seq<FenceBlock>
    decreases caps.len(),
{
    if caps.len() == 0 {
        Seq::empty()
    } else if capture_admissible(caps[0], doc_len, min_start) {
        seq![capture_block(caps[0])] + selected_blocks(
            caps.drop_first(),
            doc_len,
            capture_block(caps[0]).full_end as nat,
        )
    } else {
        selected_blocks(caps.drop_first(), doc_len, min_start)
    }
}

/// The selected blocks are well formed, sorted and non-overlapping, and all
/// start at or after the threshold.
pub proof fn lemma_selected_blocks_wf(caps: Seq<Seq<(usize, usize)>>, doc_len: nat, min_start: nat)
    ensures
        blocks_wf(selected_blocks(caps, doc_len, min_start), doc_len),
        forall|i: int|
            0 <= i < selected_blocks(caps, doc_len, min_start).len() ==> min_start
                <= #[trigger] selected_blocks(caps, doc_len, min_start)[i].full_start,
    decreases caps.len(),
{
    if caps.len() == 0 {
    } else if capture_admissible(caps[0], doc_len, min_start) {
        let b = capture_block(caps[0]);
        lemma_selected_blocks_wf(caps.drop_first(), doc_len, b.full_end as nat);
        let rest = selected_blocks(caps.drop_first(), doc_len, b.full_end as nat);
        let whole = selected_blocks(caps, doc_len, min_start);
        assert(whole =~= seq![b] + rest);
        assert forall|i: int, j: int| 0 <= i < j < whole.len() implies #[trigger] whole[i].full_end
            <= #[trigger] whole[j].full_start by {
            if i == 0 {
                assert(whole[j] == rest[j - 1]);
            } else {
                assert(whole[i] == rest[i - 1]);
                assert(whole[j] == rest[j - 1]);
            }
        }
    } else {
        lemma_selected_blocks_wf(caps.drop_first(), doc_len, min_start);
    }
}

/// No more blocks are selected than there are matches.
pub proof fn lemma_selected_blocks_len(caps: Seq<Seq<(usize, usize)>>, doc_len: nat, min_start: nat)
    ensures
        selected_blocks(caps, doc_len, min_start).len() <= caps.len(),
    decreases caps.len(),
{
    if caps.len() == 0 {
    } else if capture_admissible(caps[0], doc_len, min_start) {
        lemma_selected_blocks_len(
            caps.drop_first(),
            doc_len,
            capture_block(caps[0]).full_end as nat,
        );
    } else {
        lemma_selected_blocks_len(caps.drop_first(), doc_len, min_start);
    }
}

/// Selects the fenced blocks out of the raw query matches: a match with a
/// capture count other than three is a defect of the match and is dropped;
/// an out-of-bounds, out-of-order or overlapping match is dropped likewise.
pub fn select_blocks(caps: &Vec<Vec<(usize, usize)>>, doc_len: usize) -> (r: Vec<FenceBlock>)
    ensures
        r@ == selected_blocks(caps.deep_view(), doc_len as nat, 0),
        blocks_wf(r@, doc_len as nat),
{
    let ghost cview = caps.deep_view();
    let mut r: Vec<FenceBlock> = Vec::new();
    let mut min_start: usize = 0;
    let mut i: usize = 0;
    proof {
        assert(cview.skip(0) =~= cview);
        assert(Seq::<FenceBlock>::empty() + selected_blocks(cview, doc_len as nat, 0)
            =~= selected_blocks(cview, doc_len as nat, 0));
    }
    while i < caps.len()
        invariant
            cview == caps.deep_view(),
            cview.len() == caps@.len(),
            forall|k: int| 0 <= k < cview.len() ==> #[trigger] cview[k] == caps@[k].deep_view(),
            i <= caps@.len(),
            min_start <= doc_len || r@.len() == 0,
            selected_blocks(cview, doc_len as nat, 0) == r@ + selected_blocks(
                cview.skip(i as int),
                doc_len as nat,
                min_start as nat,
            ),
        decreases caps@.len() - i,
    {
        let m = &caps[i];
        proof {
            assert(cview.skip(i as int)[0] == cview[i as int]);
            assert(cview.skip(i as int).drop_first() =~= cview.skip(i + 1));
            assert(m.deep_view() == cview[i as int]);
            assert(m.deep_view().len() == m@.len());
        }
        let admissible = m.len() == 3 && {
            let (fs, fe) = m[0];
            let (ls, le) = m[1];
            let (cs, ce) = m[2];
            fs <= ls && ls <= le && le <= fe && fs <= cs && cs <= ce && ce <= fe && fe <= doc_len
                && min_start <= fs
        };
        proof {
            if m@.len() == 3 {
                assert(m.deep_view()[0] == m@[0]);
                assert(m.deep_view()[1] == m@[1]);
                assert(m.deep_view()[2] == m@[2]);
            }
            assert(admissible == capture_admissible(
                cview[i as int],
                doc_len as nat,
                min_start as nat,
            ));
        }
        if admissible {
            let b = FenceBlock {
                full_start: m[0].0,
                full_end: m[0].1,
                lang_start: m[1].0,
                lang_end: m[1].1,
                content_start: m[2].0,
                content_end: m[2].1,
            };
            proof {
                assert(b == capture_block(cview[i as int]));
                assert(r@.push(b) =~= r@ + seq![b]);
            }
            r.push(b);
            min_start = b.full_end;
        }
        i = i + 1;
    }
    proof {
        assert(cview.skip(caps@.len() as int) =~= Seq::<Seq<(usize, usize)>>::empty());
        assert(r@ + Seq::<FenceBlock>::empty() =~= r@);
        lemma_selected_blocks_wf(cview, doc_len as nat, 0);
    }
    r
}

} // verus!
