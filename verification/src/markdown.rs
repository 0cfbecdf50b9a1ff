//! The document pipeline: fenced blocks are located, each block whose
//! language resolves is rendered through the engine's event stream, and
//! the replacements are applied to the document in one pass.

use vstd::prelude::*;
use crate::buf::{clone_bytes, copy_range};
use crate::engine;
use crate::engine::{fence_captures_of, highlight_events_of};
use crate::events::{HighlightEvent, events_valid, events_wf};
use crate::fence::{FenceBlock, blocks_wf, select_blocks, selected_blocks};
use crate::patch::{BlockReplacement, edits_wf, spliced};
use crate::registry::ConfigStore;
use crate::render::{render_block, rendered_block};

verus! {

/// The engine query that captures each fenced code block, its language
/// tag and its content.
pub open spec fn fence_query_text() -> Seq<char> {
    "(fenced_code_block\n  (info_string\n    (language) @injection.language)\n      (code_fence_content) @injection.content\n) @block"@
}

/// The fence query's source.
fn fence_query() -> (r: &'static str)
    ensures
        r@ == fence_query_text(),
{
    "(fenced_code_block\n  (info_string\n    (language) @injection.language)\n      (code_fence_content) @injection.content\n) @block"
}

/// The fenced blocks of a document: the fence query's matches, validated
/// into well-formed, sorted, non-overlapping spans.
pub open spec fn doc_blocks(doc: Seq<u8>) -> Seq<FenceBlock> {
    selected_blocks(fence_captures_of(doc, fence_query_text()), doc.len(), 0)
}

/// The bytes of a block's language tag.
pub open spec fn block_tag(doc: Seq<u8>, b: FenceBlock) -> Seq<u8> {
    doc.subrange(b.lang_start as int, b.lang_end as int)
}

/// The bytes of a block's content.
pub open spec fn block_content(doc: Seq<u8>, b: FenceBlock) -> Seq<u8> {
    doc.subrange(b.content_start as int, b.content_end as int)
}

/// Whether block `j` of the document renders under the store: its tag has
/// a store entry, the engine yields an event stream for its content, and
/// the stream is well formed for the content and the table.
pub open spec fn block_renders(doc: Seq<u8>, store: ConfigStore, table: Seq<Seq<u8>>, j: int) -> bool {
    exists|idx: int|
        {
            &&& 0 <= idx < store.entries@.len()
            &&& (#[trigger] store.entries@[idx]).name@ == block_tag(doc, doc_blocks(doc)[j])
            &&& (highlight_events_of(store, idx, block_content(doc, doc_blocks(doc)[j]))
                matches Option::Some(evs) && events_wf(evs, block_content(
                doc,
                doc_blocks(doc)[j],
            ).len(), table.len()))
        }
}

/// What the replacement for block `j` is: it replaces the block's full
/// span, and its text is the rendering of the stream the engine yields for
/// the block's content, under the matching entry's escape flag.
pub open spec fn replacement_for_block(
    e: BlockReplacement,
    doc: Seq<u8>,
    store: ConfigStore,
    table: Seq<Seq<u8>>,
    j: int,
) -> bool {
    &&& e.start == doc_blocks(doc)[j].full_start
    &&& e.old_end == doc_blocks(doc)[j].full_end
    &&& exists|idx: int|
        {
            &&& 0 <= idx < store.entries@.len()
            &&& (#[trigger] store.entries@[idx]).name@ == block_tag(doc, doc_blocks(doc)[j])
            &&& (highlight_events_of(store, idx, block_content(doc, doc_blocks(doc)[j]))
                matches Option::Some(evs) && events_wf(evs, block_content(
                doc,
                doc_blocks(doc)[j],
            ).len(), table.len()) && e.formatted@ == rendered_block(
                block_content(doc, doc_blocks(doc)[j]),
                table,
                store.entries@[idx].escape,
                evs,
            ))
        }
}

/// What one replacement is: the replacement of some rendering block.
pub open spec fn edit_explained(
    e: BlockReplacement,
    doc: Seq<u8>,
    store: ConfigStore,
    table: Seq<Seq<u8>>,
) -> bool {
    exists|j: int|
        0 <= j < doc_blocks(doc).len() && #[trigger] replacement_for_block(
            e,
            doc,
            store,
            table,
            j,
        )
}

/// How many of the first `upto` blocks render under the store.
pub open spec fn renders_count(
    doc: Seq<u8>,
    store: ConfigStore,
    table: Seq<Seq<u8>>,
    upto: int,
) -> int
    decreases upto,
{
    if upto <= 0 {
        0
    } else {
        renders_count(doc, store, table, upto - 1) + if block_renders(
            doc,
            store,
            table,
            upto - 1,
        ) {
            1int
        } else {
            0int
        }
    }
}

/// With distinct entry names, at most one entry serves a tag.
proof fn lemma_entry_unique(store: ConfigStore, a: int, b: int)
    requires
        store.wf(),
        0 <= a < store.entries@.len(),
        0 <= b < store.entries@.len(),
        store.entries@[a].name@ == store.entries@[b].name@,
    ensures
        a == b,
{
    if a < b {
        assert(store.entries@[a].name@ != store.entries@[b].name@);
    } else if b < a {
        assert(store.entries@[b].name@ != store.entries@[a].name@);
    }
}

/// When no block's tag is resolved in the store, no block renders.
proof fn lemma_unresolved_no_renders(
    doc: Seq<u8>,
    store: ConfigStore,
    table: Seq<Seq<u8>>,
    upto: int,
)
    requires
        forall|j: int|
            0 <= j < doc_blocks(doc).len() ==> !store.has_config(
                block_tag(doc, #[trigger] doc_blocks(doc)[j]),
            ),
        0 <= upto <= doc_blocks(doc).len(),
    ensures
        renders_count(doc, store, table, upto) == 0,
    decreases upto,
{
    if upto > 0 {
        lemma_unresolved_no_renders(doc, store, table, upto - 1);
        assert(!block_renders(doc, store, table, upto - 1)) by {
            if block_renders(doc, store, table, upto - 1) {
                let idx = choose|idx: int|
                    {
                        &&& 0 <= idx < store.entries@.len()
                        &&& (#[trigger] store.entries@[idx]).name@ == block_tag(
                            doc,
                            doc_blocks(doc)[upto - 1],
                        )
                        &&& (highlight_events_of(
                            store,
                            idx,
                            block_content(doc, doc_blocks(doc)[upto - 1]),
                        ) matches Option::Some(evs) && events_wf(evs, block_content(
                            doc,
                            doc_blocks(doc)[upto - 1],
                        ).len(), table.len()))
                    };
                assert(store.entry_names()[idx] == block_tag(doc, doc_blocks(doc)[upto - 1]));
                assert(store.has_config(block_tag(doc, doc_blocks(doc)[upto - 1])));
            }
        }
    }
}


/// A document together with its working copy of the text.
pub struct MarkdownFile {
    pub file_contents: Vec<u8>,
}

impl MarkdownFile {
    /// Wraps a document's text for formatting.
    pub fn new(file_contents: Vec<u8>) -> (r: Self)
        ensures
            r.file_contents@ == file_contents@,
    {
        MarkdownFile { file_contents }
    }

    /// Collects the replacements of the document's fenced blocks: one per
    /// block that renders under the store — tag resolved, event stream
    /// produced and well formed — holding exactly that block's rendering,
    /// and none for any other block.  The replacements are sorted
    /// ascending, non-overlapping and within the document.
    pub fn get_edits(&self, store: &ConfigStore, table: &Vec<Vec<u8>>) -> (edits: Vec<
        BlockReplacement,
    >)
        requires
            store.wf(),
        ensures
            edits_wf(self.file_contents@.len(), edits@),
            forall|k: int|
                0 <= k < edits@.len() ==> edit_explained(
                    #[trigger] edits@[k],
                    self.file_contents@,
                    *store,
                    table.deep_view(),
                ),
            forall|j: int|
                0 <= j < doc_blocks(self.file_contents@).len() && #[trigger] block_renders(
                    self.file_contents@,
                    *store,
                    table.deep_view(),
                    j,
                ) ==> exists|k: int|
                    0 <= k < edits@.len() && #[trigger] replacement_for_block(
                        edits@[k],
                        self.file_contents@,
                        *store,
                        table.deep_view(),
                        j,
                    ),
            edits@.len() == renders_count(
                self.file_contents@,
                *store,
                table.deep_view(),
                doc_blocks(self.file_contents@).len() as int,
            ),
            (forall|j: int|
                0 <= j < doc_blocks(self.file_contents@).len() ==> !store.has_config(
                    block_tag(self.file_contents@, #[trigger] doc_blocks(self.file_contents@)[j]),
                )) ==> edits@.len() == 0,
    {
        let ghost doc = self.file_contents@;
        let ghost tview = table.deep_view();
        let caps = engine::ts_fence_captures(&self.file_contents, fence_query());
        let blocks = select_blocks(&caps, self.file_contents.len());
        proof {
            assert(blocks@ == doc_blocks(doc));
        }
        let mut edits: Vec<BlockReplacement> = Vec::new();
        let mut i: usize = 0;
        while i < blocks.len()
            invariant
                store.wf(),
                doc == self.file_contents@,
                tview == table.deep_view(),
                blocks@ == doc_blocks(doc),
                blocks_wf(blocks@, doc.len()),
                i <= blocks@.len(),
                edits_wf(doc.len(), edits@),
                forall|k: int|
                    0 <= k < edits@.len() ==> edit_explained(
                        #[trigger] edits@[k],
                        doc,
                        *store,
                        tview,
                    ),
                forall|j: int|
                    0 <= j < i && #[trigger] block_renders(doc, *store, tview, j) ==> exists|
                        k: int,
                    |
                        0 <= k < edits@.len() && #[trigger] replacement_for_block(
                            edits@[k],
                            doc,
                            *store,
                            tview,
                            j,
                        ),
                edits@.len() == renders_count(doc, *store, tview, i as int),
                edits@.len() > 0 && i < blocks@.len() ==> edits@.last().old_end
                    <= blocks@[i as int].full_start,
            decreases blocks@.len() - i,
        {
            let ghost gi = i as int;
            let b = blocks[i];
            let tag = copy_range(&self.file_contents, b.lang_start, b.lang_end);
            proof {
                assert(tag@ == block_tag(doc, blocks@[gi]));
            }
            let found = store.find(tag.as_slice());
            let ghost old_edits = edits@;
            match found {
                Option::Some(idx) => {
                    let content = copy_range(
                        &self.file_contents,
                        b.content_start,
                        b.content_end,
                    );
                    proof {
                        assert(content@ == block_content(doc, blocks@[gi]));
                    }
                    match engine::ts_highlight(store, idx, &content) {
                        Option::Some(evs) => {
                            let valid = events_valid(&evs, content.len(), table.len());
                            proof {
                                assert(tview.len() == table@.len());
                            }
                            if valid {
                                let escape = store.escape_at(idx);
                                let formatted = render_block(&content, table, escape, &evs);
                                let e = BlockReplacement {
                                    start: b.full_start,
                                    old_end: b.full_end,
                                    formatted,
                                };
                                edits.push(e);
                                proof {
                                    let ge = edits@.last();
                                    assert(highlight_events_of(*store, idx as int, content@)
                                        == Option::Some(evs@));
                                    assert(replacement_for_block(ge, doc, *store, tview, gi)) by {
                                        assert(0 <= idx < store.entries@.len()
                                            && store.entries@[idx as int].name@ == block_tag(
                                            doc,
                                            doc_blocks(doc)[gi],
                                        ) && (highlight_events_of(
                                            *store,
                                            idx as int,
                                            block_content(doc, doc_blocks(doc)[gi]),
                                        ) matches Option::Some(evs2) && events_wf(
                                            evs2,
                                            block_content(doc, doc_blocks(doc)[gi]).len(),
                                            tview.len(),
                                        ) && ge.formatted@ == rendered_block(
                                            block_content(doc, doc_blocks(doc)[gi]),
                                            tview,
                                            store.entries@[idx as int].escape,
                                            evs2,
                                        )));
                                    }
                                    assert(block_renders(doc, *store, tview, gi));
                                    assert(renders_count(doc, *store, tview, gi + 1)
                                        == renders_count(doc, *store, tview, gi) + 1);
                                    assert forall|k: int|
                                        0 <= k < edits@.len() implies edit_explained(
                                        #[trigger] edits@[k],
                                        doc,
                                        *store,
                                        tview,
                                    ) by {
                                        if k < edits@.len() - 1 {
                                            assert(edits@[k] == old_edits[k]);
                                        } else {
                                            assert(replacement_for_block(
                                                edits@[k],
                                                doc,
                                                *store,
                                                tview,
                                                gi,
                                            ));
                                        }
                                    }
                                    assert forall|j: int|
                                        0 <= j < gi + 1 && #[trigger] block_renders(
                                        doc,
                                        *store,
                                        tview,
                                        j,
                                    ) implies exists|k: int|
                                        0 <= k < edits@.len() && #[trigger] replacement_for_block(
                                            edits@[k],
                                            doc,
                                            *store,
                                            tview,
                                            j,
                                        ) by {
                                        if j < gi {
                                            let k = choose|k: int|
                                                0 <= k < old_edits.len()
                                                    && #[trigger] replacement_for_block(
                                                    old_edits[k],
                                                    doc,
                                                    *store,
                                                    tview,
                                                    j,
                                                );
                                            assert(edits@[k] == old_edits[k]);
                                            assert(replacement_for_block(
                                                edits@[k],
                                                doc,
                                                *store,
                                                tview,
                                                j,
                                            ));
                                        } else {
                                            assert(replacement_for_block(
                                                edits@[edits@.len() - 1],
                                                doc,
                                                *store,
                                                tview,
                                                gi,
                                            ));
                                        }
                                    }
                                    assert forall|k1: int, k2: int|
                                        0 <= k1 < k2 < edits@.len() implies #[trigger] edits@[k1].old_end
                                        <= #[trigger] edits@[k2].start by {
                                        if k2 < edits@.len() - 1 {
                                            assert(edits@[k1] == old_edits[k1]);
                                            assert(edits@[k2] == old_edits[k2]);
                                        } else {
                                            if k1 < edits@.len() - 1 {
                                                if k1 < old_edits.len() - 1 {
                                                    assert(old_edits[k1].old_end
                                                        <= old_edits.last().start);
                                                }
                                                assert(old_edits[k1].old_end
                                                    <= blocks@[gi].full_start);
                                            }
                                        }
                                    }
                                }
                            } else {
                                proof {
                                    assert(highlight_events_of(*store, idx as int, content@)
                                        == Option::Some(evs@));
                                    assert(!block_renders(doc, *store, tview, gi)) by {
                                        if block_renders(doc, *store, tview, gi) {
                                            let idx2 = choose|idx2: int|
                                                {
                                                    &&& 0 <= idx2 < store.entries@.len()
                                                    &&& (#[trigger] store.entries@[idx2]).name@
                                                        == block_tag(doc, doc_blocks(doc)[gi])
                                                    &&& (highlight_events_of(
                                                        *store,
                                                        idx2,
                                                        block_content(doc, doc_blocks(doc)[gi]),
                                                    ) matches Option::Some(evs2) && events_wf(
                                                        evs2,
                                                        block_content(
                                                            doc,
                                                            doc_blocks(doc)[gi],
                                                        ).len(),
                                                        tview.len(),
                                                    ))
                                                };
                                            lemma_entry_unique(*store, idx2, idx as int);
                                        }
                                    }
                                    assert(renders_count(doc, *store, tview, gi + 1)
                                        == renders_count(doc, *store, tview, gi));
                                }
                            }
                        },
                        Option::None => {
                            proof {
                                assert(highlight_events_of(*store, idx as int, content@)
                                    is None);
                                assert(!block_renders(doc, *store, tview, gi)) by {
                                    if block_renders(doc, *store, tview, gi) {
                                        let idx2 = choose|idx2: int|
                                            {
                                                &&& 0 <= idx2 < store.entries@.len()
                                                &&& (#[trigger] store.entries@[idx2]).name@
                                                    == block_tag(doc, doc_blocks(doc)[gi])
                                                &&& (highlight_events_of(
                                                    *store,
                                                    idx2,
                                                    block_content(doc, doc_blocks(doc)[gi]),
                                                ) matches Option::Some(evs2) && events_wf(
                                                    evs2,
                                                    block_content(doc, doc_blocks(doc)[gi]).len(),
                                                    tview.len(),
                                                ))
                                            };
                                        lemma_entry_unique(*store, idx2, idx as int);
                                    }
                                }
                                assert(renders_count(doc, *store, tview, gi + 1) == renders_count(
                                    doc,
                                    *store,
                                    tview,
                                    gi,
                                ));
                            }
                        },
                    }
                },
                Option::None => {
                    proof {
                        assert(!block_renders(doc, *store, tview, gi)) by {
                            if block_renders(doc, *store, tview, gi) {
                                let idx2 = choose|idx2: int|
                                    {
                                        &&& 0 <= idx2 < store.entries@.len()
                                        &&& (#[trigger] store.entries@[idx2]).name@ == block_tag(
                                            doc,
                                            doc_blocks(doc)[gi],
                                        )
                                        &&& (highlight_events_of(
                                            *store,
                                            idx2,
                                            block_content(doc, doc_blocks(doc)[gi]),
                                        ) matches Option::Some(evs2) && events_wf(
                                            evs2,
                                            block_content(doc, doc_blocks(doc)[gi]).len(),
                                            tview.len(),
                                        ))
                                    };
                                assert(store.entry_names()[idx2] == block_tag(
                                    doc,
                                    doc_blocks(doc)[gi],
                                ));
                                assert(store.has_config(block_tag(doc, doc_blocks(doc)[gi])));
                            }
                        }
                        assert(renders_count(doc, *store, tview, gi + 1) == renders_count(
                            doc,
                            *store,
                            tview,
                            gi,
                        ));
                    }
                },
            }
            proof {
                if edits@.len() > 0 && gi + 1 < blocks@.len() {
                    if edits@.last().old_end <= blocks@[gi].full_start {
                        assert(blocks@[gi].full_start <= blocks@[gi].full_end);
                        assert(blocks@[gi].full_end <= blocks@[gi + 1].full_start);
                    } else {
                        assert(edits@.last().old_end <= blocks@[gi].full_end);
                        assert(blocks@[gi].full_end <= blocks@[gi + 1].full_start);
                    }
                }
            }
            i = i + 1;
        }
        proof {
            assert((forall|j: int|
                0 <= j < doc_blocks(doc).len() ==> !store.has_config(
                    block_tag(doc, #[trigger] doc_blocks(doc)[j]),
                )) ==> edits@.len() == 0) by {
                if (forall|j: int|
                    0 <= j < doc_blocks(doc).len() ==> !store.has_config(
                        block_tag(doc, #[trigger] doc_blocks(doc)[j]),
                    )) {
                    lemma_unresolved_no_renders(
                        doc,
                        *store,
                        tview,
                        doc_blocks(doc).len() as int,
                    );
                }
            }
        }
        edits
    }

    /// Applies the replacements to the working copy in ascending order,
    /// in one offset-correct pass.
    pub fn apply_edits(&mut self, edits: &Vec<BlockReplacement>)
        requires
            edits_wf(old(self).file_contents@.len(), edits@),
        ensures
            final(self).file_contents@ == spliced(old(self).file_contents@, edits@),
    {
        let new_contents = crate::patch::apply_edits(&self.file_contents, edits);
        self.file_contents = new_contents;
    }

    /// Formats the document in place: every fenced block that renders
    /// under the store — tag resolved, event stream produced and well
    /// formed — is replaced by exactly its rendered markup, one wrapper
    /// per such block in document order, and every other byte of the
    /// document is kept as it stands.  A document none of whose block
    /// tags is resolved comes back unchanged.
    pub fn format(&mut self, store: &ConfigStore, table: &Vec<Vec<u8>>)
        requires
            store.wf(),
        ensures
            exists|edits: Seq<BlockReplacement>|
                {
                    &&& #[trigger] edits_wf(old(self).file_contents@.len(), edits)
                    &&& forall|k: int|
                        0 <= k < edits.len() ==> edit_explained(
                            #[trigger] edits[k],
                            old(self).file_contents@,
                            *store,
                            table.deep_view(),
                        )
                    &&& forall|j: int|
                        0 <= j < doc_blocks(old(self).file_contents@).len()
                            && #[trigger] block_renders(
                            old(self).file_contents@,
                            *store,
                            table.deep_view(),
                            j,
                        ) ==> exists|k: int|
                            0 <= k < edits.len() && #[trigger] replacement_for_block(
                                edits[k],
                                old(self).file_contents@,
                                *store,
                                table.deep_view(),
                                j,
                            )
                    &&& edits.len() == renders_count(
                        old(self).file_contents@,
                        *store,
                        table.deep_view(),
                        doc_blocks(old(self).file_contents@).len() as int,
                    )
                    &&& final(self).file_contents@ == spliced(old(self).file_contents@, edits)
                },
            (forall|j: int|
                0 <= j < doc_blocks(old(self).file_contents@).len() ==> !store.has_config(
                    block_tag(
                        old(self).file_contents@,
                        #[trigger] doc_blocks(old(self).file_contents@)[j],
                    ),
                )) ==> final(self).file_contents@ == old(self).file_contents@,
    {
        let edits = self.get_edits(store, table);
        let ghost ge = edits@;
        self.apply_edits(&edits);
        proof {
            assert(edits_wf(old(self).file_contents@.len(), ge) && (forall|k: int|
                0 <= k < ge.len() ==> edit_explained(
                    #[trigger] ge[k],
                    old(self).file_contents@,
                    *store,
                    table.deep_view(),
                )) && self.file_contents@ == spliced(old(self).file_contents@, ge));
        }
    }

    /// The language tags of the document's fenced blocks, in document
    /// order, one per block.
    pub fn language_tags(&self) -> (r: Vec<Vec<u8>>)
        ensures
            r@.len() == doc_blocks(self.file_contents@).len(),
            forall|k: int|
                0 <= k < r@.len() ==> #[trigger] r@[k]@ == block_tag(
                    self.file_contents@,
                    doc_blocks(self.file_contents@)[k],
                ),
    {
        let ghost doc = self.file_contents@;
        let caps = engine::ts_fence_captures(&self.file_contents, fence_query());
        let blocks = select_blocks(&caps, self.file_contents.len());
        proof {
            assert(blocks@ == doc_blocks(doc));
        }
        let mut r: Vec<Vec<u8>> = Vec::new();
        let mut i: usize = 0;
        while i < blocks.len()
            invariant
                doc == self.file_contents@,
                blocks@ == doc_blocks(doc),
                blocks_wf(blocks@, doc.len()),
                i <= blocks@.len(),
                r@.len() == i,
                forall|k: int|
                    0 <= k < i ==> #[trigger] r@[k]@ == block_tag(doc, doc_blocks(doc)[k]),
            decreases blocks@.len() - i,
        {
            let b = blocks[i];
            r.push(copy_range(&self.file_contents, b.lang_start, b.lang_end));
            i = i + 1;
        }
        r
    }

    /// How many fence matches of the document were dropped as defective:
    /// matches whose capture count or spans do not form a well-formed,
    /// in-order block contribute no block, and a driver can surface this
    /// count as a diagnostic for the affected units.
    pub fn dropped_block_matches(&self) -> (r: usize)
        ensures
            r + doc_blocks(self.file_contents@).len() == fence_captures_of(
                self.file_contents@,
                fence_query_text(),
            ).len(),
    {
        let caps = engine::ts_fence_captures(&self.file_contents, fence_query());
        let blocks = select_blocks(&caps, self.file_contents.len());
        proof {
            crate::fence::lemma_selected_blocks_len(
                caps.deep_view(),
                self.file_contents@.len(),
                0,
            );
            assert(caps.deep_view().len() == caps@.len());
        }
        caps.len() - blocks.len()
    }

    /// The working copy of the document's text.
    pub fn contents(&self) -> (r: Vec<u8>)
        ensures
            r@ == self.file_contents@,
    {
        clone_bytes(&self.file_contents)
    }
}

/// Order preservation: every replacement a run produces is one whole
/// wrapped block rendering, the replacements stand in ascending original
/// order, and with `get_edits`' count clause their number equals the
/// number of blocks that render, so the rendered wrapper instances appear
/// once per rendering block, in document order.
pub proof fn lemma_order_preservation(
    doc: Seq<u8>,
    store: ConfigStore,
    table: Seq<Seq<u8>>,
    edits: Seq<BlockReplacement>,
)
    requires
        edits_wf(doc.len(), edits),
        forall|k: int|
            0 <= k < edits.len() ==> edit_explained(#[trigger] edits[k], doc, store, table),
    ensures
        forall|k: int|
            0 <= k < edits.len() ==> crate::render::is_wrapped(#[trigger] edits[k].formatted@),
        forall|k1: int, k2: int|
            0 <= k1 < k2 < edits.len() ==> #[trigger] edits[k1].old_end
                <= #[trigger] edits[k2].start,
{
    assert forall|k: int| 0 <= k < edits.len() implies crate::render::is_wrapped(
        #[trigger] edits[k].formatted@,
    ) by {
        assert(edit_explained(edits[k], doc, store, table));
        let j = choose|j: int|
            0 <= j < doc_blocks(doc).len() && #[trigger] replacement_for_block(
                edits[k],
                doc,
                store,
                table,
                j,
            );
        let idx = choose|idx: int|
            {
                &&& 0 <= idx < store.entries@.len()
                &&& (#[trigger] store.entries@[idx]).name@ == block_tag(doc, doc_blocks(doc)[j])
                &&& (highlight_events_of(store, idx, block_content(doc, doc_blocks(doc)[j]))
                    matches Option::Some(evs) && events_wf(evs, block_content(
                    doc,
                    doc_blocks(doc)[j],
                ).len(), table.len()) && edits[k].formatted@ == rendered_block(
                    block_content(doc, doc_blocks(doc)[j]),
                    table,
                    store.entries@[idx].escape,
                    evs,
                ))
            };
        let o = highlight_events_of(store, idx, block_content(doc, doc_blocks(doc)[j]));
        assert(o is Some);
        let evs = choose|evs: Seq<HighlightEvent>| o == Option::Some(evs);
        crate::render::lemma_rendered_block_is_wrapped(
            block_content(doc, doc_blocks(doc)[j]),
            table,
            store.entries@[idx].escape,
            evs,
        );
    }
}

} // verus!
