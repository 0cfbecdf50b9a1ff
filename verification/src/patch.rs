//! Applying per-block replacements to a document in one offset-correct pass.

use vstd::prelude::*;

verus! {

/// One replacement: the byte range of the original document that a rendered
/// block replaces, together with the rendered bytes.
pub struct BlockReplacement {
    pub start: usize,
    pub old_end: usize,
    pub formatted: Vec<u8>,
}

/// Replacements are given against original offsets: each range is within the
/// document, and the sequence is sorted ascending and non-overlapping.
pub open spec fn edits_wf(doc_len: nat, edits: Seq<BlockReplacement>) -> bool {
    &&& forall|i: int|
        0 <= i < edits.len() ==> (#[trigger] edits[i].start <= edits[i].old_end
            && edits[i].old_end <= doc_len)
    &&& forall|i: int, j: int|
        0 <= i < j < edits.len() ==> #[trigger] edits[i].old_end <= #[trigger] edits[j].start
}

/// The document with every replacement applied at its original offset: the
/// text outside the replaced ranges is kept as it stands.
pub open spec fn spliced(doc: Seq<u8>, edits: Seq<BlockReplacement>) -> Seq<u8>
    decreases edits.len(),
{
    if edits.len() == 0 {
        doc
    } else {
        let e = edits.last();
        spliced(doc.subrange(0, e.start as int), edits.drop_last()) + e.formatted@
            + doc.subrange(e.old_end as int, doc.len() as int)
    }
}

/// Extending the document past the last replaced range only appends the new
/// text to the spliced result.
proof fn lemma_spliced_extend(doc: Seq<u8>, edits: Seq<BlockReplacement>, a: int, b: int)
    requires
        edits_wf(doc.len(), edits),
        0 <= a <= b <= doc.len(),
        edits.len() > 0 ==> edits.last().old_end <= a,
    ensures
        spliced(doc.subrange(0, b), edits) == spliced(doc.subrange(0, a), edits) + doc.subrange(
            a,
            b,
        ),
    decreases edits.len(),
{
    if edits.len() == 0 {
        assert(doc.subrange(0, b) =~= doc.subrange(0, a) + doc.subrange(a, b));
    } else {
        let e = edits.last();
        let rest = edits.drop_last();
        assert(doc.subrange(0, b).subrange(0, e.start as int) =~= doc.subrange(
            0,
            e.start as int,
        ));
        assert(doc.subrange(0, a).subrange(0, e.start as int) =~= doc.subrange(
            0,
            e.start as int,
        ));
        assert(doc.subrange(0, b).subrange(e.old_end as int, b) =~= doc.subrange(
            0,
            a,
        ).subrange(e.old_end as int, a) + doc.subrange(a, b));
        assert(spliced(doc.subrange(0, b), edits) =~= spliced(doc.subrange(0, a), edits)
            + doc.subrange(a, b));
    }
}

/// Applies the replacements to the document in ascending order, in one pass;
/// the bytes between and around the replaced ranges are kept unchanged.
pub fn apply_edits(doc: &Vec<u8>, edits: &Vec<BlockReplacement>) -> (out: Vec<u8>)
    requires
        edits_wf(doc@.len(), edits@),
    ensures
        out@ == spliced(doc@, edits@),
{
    let mut out: Vec<u8> = Vec::new();
    let mut pos: usize = 0;
    let mut i: usize = 0;
    while i < edits.len()
        invariant
            edits_wf(doc@.len(), edits@),
            i <= edits@.len(),
            pos <= doc@.len(),
            i < edits@.len() ==> pos <= edits@[i as int].start,
            i > 0 ==> pos == edits@[i - 1].old_end,
            i == 0 ==> pos == 0,
            out@ == spliced(doc@.subrange(0, pos as int), edits@.take(i as int)),
        decreases edits@.len() - i,
    {
        let e_start = edits[i].start;
        let e_old_end = edits[i].old_end;
        proof {
            lemma_spliced_extend(doc@, edits@.take(i as int), pos as int, e_start as int);
        }
        crate::buf::append_range(&mut out, doc, pos, e_start);
        crate::buf::append_range(&mut out, &edits[i].formatted, 0, edits[i].formatted.len());
        proof {
            let k = i as int;
            assert(edits@.take(k + 1).drop_last() =~= edits@.take(k));
            assert(edits@.take(k + 1).last() == edits@[k]);
            assert(doc@.subrange(0, e_old_end as int).subrange(0, e_start as int)
                =~= doc@.subrange(0, e_start as int));
            assert(doc@.subrange(0, e_old_end as int).subrange(
                e_old_end as int,
                e_old_end as int,
            ) =~= Seq::<u8>::empty());
            assert(edits@[k].formatted@.subrange(0, edits@[k].formatted@.len() as int)
                =~= edits@[k].formatted@);
            assert(out@ =~= spliced(
                doc@.subrange(0, e_old_end as int),
                edits@.take(k + 1),
            ));
        }
        pos = e_old_end;
        i = i + 1;
    }
    proof {
        assert(edits@.take(edits@.len() as int) =~= edits@);
        lemma_spliced_extend(doc@, edits@, pos as int, doc@.len() as int);
        assert(doc@.subrange(0, doc@.len() as int) =~= doc@);
    }
    crate::buf::append_range(&mut out, doc, pos, doc.len());
    out
}

/// With no replacements the document comes back byte-identical: a document
/// whose blocks all failed to resolve or render is returned unchanged.
pub proof fn lemma_no_edits_identity(doc: Seq<u8>, edits: Seq<BlockReplacement>)
    requires
        edits.len() == 0,
    ensures
        spliced(doc, edits) == doc,
{
}

/// Offset correctness for two adjacent replacements: however the replaced
/// ranges shrink or grow, every byte of the document outside the two ranges
/// stands in the result exactly as in the input, in order.
pub proof fn lemma_offset_correctness(doc: Seq<u8>, e1: BlockReplacement, e2: BlockReplacement)
    requires
        edits_wf(doc.len(), seq![e1, e2]),
    ensures
        spliced(doc, seq![e1, e2]) == doc.subrange(0, e1.start as int) + e1.formatted@
            + doc.subrange(e1.old_end as int, e2.start as int) + e2.formatted@ + doc.subrange(
            e2.old_end as int,
            doc.len() as int,
        ),
{
    let two = seq![e1, e2];
    assert(two.drop_last() =~= seq![e1]);
    assert(seq![e1].drop_last() =~= Seq::<BlockReplacement>::empty());
    let front = doc.subrange(0, e2.start as int);
    assert(two.last() == e2);
    assert(seq![e1].last() == e1);
    assert(spliced(doc, two) == spliced(front, seq![e1]) + e2.formatted@ + doc.subrange(
        e2.old_end as int,
        doc.len() as int,
    ));
    assert(spliced(front, seq![e1]) == spliced(
        front.subrange(0, e1.start as int),
        Seq::<BlockReplacement>::empty(),
    ) + e1.formatted@ + front.subrange(e1.old_end as int, front.len() as int));
    assert(front.subrange(0, e1.start as int) =~= doc.subrange(0, e1.start as int));
    assert(front.subrange(e1.old_end as int, front.len() as int) =~= doc.subrange(
        e1.old_end as int,
        e2.start as int,
    ));
    assert(spliced(doc, two) =~= doc.subrange(0, e1.start as int) + e1.formatted@ + doc.subrange(
        e1.old_end as int,
        e2.start as int,
    ) + e2.formatted@ + doc.subrange(e2.old_end as int, doc.len() as int));
}

} // verus!
