//! Counting the blocks of a crate, and collecting the unsafe operations of
//! its unsafe blocks.
use vstd::prelude::*;
use crate::results::blocks::{BlockSummary, BlockUnsafetySource};
use crate::results::unsafety_sources::{Source, SourceKind};
use crate::text::{decimal, u32_to_decimal};

verus! {

/// Who wrote an unsafe block.
#[derive(Clone, Copy, PartialEq, Eq, Structural, Debug)]
pub enum UnsafeSource {
    UserProvided,
    CompilerGenerated,
}

/// Whether a block is an ordinary block or an unsafe one, and who wrote it.
#[derive(Clone, Copy, PartialEq, Eq, Structural, Debug)]
pub enum BlockCheckMode {
    DefaultBlock,
    UnsafeBlock(UnsafeSource),
    PushUnsafeBlock(UnsafeSource),
    PopUnsafeBlock(UnsafeSource),
}

/// Who wrote an unsafe block, when the block is unsafe.
pub open spec fn unsafe_source_of(b: BlockCheckMode) -> Option<UnsafeSource> {
    match b {
        BlockCheckMode::DefaultBlock => None,
        BlockCheckMode::UnsafeBlock(s) => Some(s),
        BlockCheckMode::PushUnsafeBlock(s) => Some(s),
        BlockCheckMode::PopUnsafeBlock(s) => Some(s),
    }
}

/// Number of unsafe blocks in `blocks` (when `user_only`, of those written by
/// the user).
pub open spec fn count_unsafe_blocks(blocks: Seq<BlockCheckMode>, user_only: bool) -> nat
    decreases blocks.len(),
{
    if blocks.len() == 0 {
        0
    } else {
        count_unsafe_blocks(blocks.drop_last(), user_only) + match unsafe_source_of(blocks.last()) {
            Some(s) => if !user_only || s is UserProvided {
                1nat
            } else {
                0nat
            },
            None => 0nat,
        }
    }
}

/// A block with the blocks nested in it (those of nested bodies included),
/// in order.
pub struct Block {
    pub rules: BlockCheckMode,
    pub nested: Vec<Block>,
}

/// The modes of a block and of all the blocks nested in it, the block first,
/// then each nested block's in order.
pub open spec fn tree_modes(b: Block) -> Seq<BlockCheckMode>
    decreases b,
{
    seq![b.rules] + forest_modes(b.nested@)
}

/// The modes of the blocks of a list of trees, tree by tree.
pub open spec fn forest_modes(f: Seq<Block>) -> Seq<BlockCheckMode>
    decreases f,
{
    if f.len() == 0 {
        Seq::empty()
    } else {
        forest_modes(f.subrange(0, f.len() - 1)) + tree_modes(f[f.len() - 1])
    }
}

proof fn lemma_count_append(a: Seq<BlockCheckMode>, b: Seq<BlockCheckMode>, user_only: bool)
    ensures
        count_unsafe_blocks(a + b, user_only) == count_unsafe_blocks(a, user_only)
            + count_unsafe_blocks(b, user_only),
    decreases b.len(),
{
    if b.len() == 0 {
        assert(a + b =~= a);
    } else {
        assert((a + b).drop_last() =~= a + b.drop_last());
        assert((a + b).last() == b.last());
        lemma_count_append(a, b.drop_last(), user_only);
    }
}

proof fn lemma_forest_prefix(f: Seq<Block>, j: int)
    requires
        0 <= j <= f.len(),
    ensures
        forest_modes(f.subrange(0, j)).len() <= forest_modes(f).len(),
    decreases f.len(),
{
    if j == f.len() {
        assert(f.subrange(0, j) =~= f);
    } else {
        let g = f.subrange(0, f.len() - 1);
        assert(g.subrange(0, j) =~= f.subrange(0, j));
        lemma_forest_prefix(g, j);
    }
}

proof fn lemma_counts_ordered(a: Seq<BlockCheckMode>)
    ensures
        count_unsafe_blocks(a, true) <= count_unsafe_blocks(a, false) <= a.len(),
    decreases a.len(),
{
    if a.len() > 0 {
        lemma_counts_ordered(a.drop_last());
    }
}

/// The block counts gathered while walking the blocks of a crate.
pub struct BlockVisitor {
    pub user_unsafe_blocks: usize,
    pub unsafe_blocks: usize,
    pub total_blocks: usize,
}

impl BlockVisitor {
    pub fn new() -> (r: Self)
        ensures
            r.user_unsafe_blocks == 0,
            r.unsafe_blocks == 0,
            r.total_blocks == 0,
    {
        BlockVisitor { user_unsafe_blocks: 0, unsafe_blocks: 0, total_blocks: 0 }
    }

    /// Counts one block: every block, the unsafe ones, and the unsafe ones
    /// written by the user.
    pub fn count_block(&mut self, rules: BlockCheckMode)
        requires
            old(self).total_blocks < usize::MAX,
            old(self).unsafe_blocks <= old(self).total_blocks,
            old(self).user_unsafe_blocks <= old(self).unsafe_blocks,
        ensures
            final(self).total_blocks == old(self).total_blocks + 1,
            final(self).unsafe_blocks == old(self).unsafe_blocks + if unsafe_source_of(rules) is Some {
                1int
            } else {
                0int
            },
            final(self).user_unsafe_blocks == old(self).user_unsafe_blocks + if unsafe_source_of(
                rules,
            ) == Some(UnsafeSource::UserProvided) {
                1int
            } else {
                0int
            },
            final(self).unsafe_blocks <= final(self).total_blocks,
            final(self).user_unsafe_blocks <= final(self).unsafe_blocks,
    {
        match rules {
            BlockCheckMode::DefaultBlock => {},
            BlockCheckMode::UnsafeBlock(unsafe_source)
            | BlockCheckMode::PushUnsafeBlock(unsafe_source)
            | BlockCheckMode::PopUnsafeBlock(unsafe_source) => {
                match unsafe_source {
                    UnsafeSource::UserProvided => {
                        self.user_unsafe_blocks = self.user_unsafe_blocks + 1;
                    },
                    UnsafeSource::CompilerGenerated => {},
                }
                self.unsafe_blocks = self.unsafe_blocks + 1;
            },
        }
        self.total_blocks = self.total_blocks + 1;
    }

    /// Counts a block and every block nested in it: every block, the unsafe
    /// ones, and the unsafe ones written by the user.
    pub fn visit_block(&mut self, b: &Block)
        requires
            old(self).total_blocks + tree_modes(*b).len() <= usize::MAX,
            old(self).unsafe_blocks <= old(self).total_blocks,
            old(self).user_unsafe_blocks <= old(self).unsafe_blocks,
        ensures
            final(self).total_blocks == old(self).total_blocks + tree_modes(*b).len(),
            final(self).unsafe_blocks == old(self).unsafe_blocks + count_unsafe_blocks(
                tree_modes(*b),
                false,
            ),
            final(self).user_unsafe_blocks == old(self).user_unsafe_blocks + count_unsafe_blocks(
                tree_modes(*b),
                true,
            ),
            final(self).unsafe_blocks <= final(self).total_blocks,
            final(self).user_unsafe_blocks <= final(self).unsafe_blocks,
        decreases b,
    {
        let ghost t0 = self.total_blocks as int;
        let ghost u0 = self.unsafe_blocks as int;
        let ghost s0 = self.user_unsafe_blocks as int;
        let ghost all = tree_modes(*b);
        let ghost kids = b.nested@;
        proof {
            assert(all == seq![b.rules] + forest_modes(kids));
            lemma_count_append(seq![b.rules], forest_modes(kids), false);
            lemma_count_append(seq![b.rules], forest_modes(kids), true);
            assert(seq![b.rules].drop_last() =~= Seq::<BlockCheckMode>::empty());
        }
        self.count_block(b.rules);
        let mut i: usize = 0;
        assert(kids.subrange(0, 0) =~= Seq::<Block>::empty());
        while i < b.nested.len()
            invariant
                i <= b.nested.len(),
                kids == b.nested@,
                all == seq![b.rules] + forest_modes(kids),
                t0 + all.len() <= usize::MAX,
                self.total_blocks == t0 + 1 + forest_modes(kids.subrange(0, i as int)).len(),
                self.unsafe_blocks == u0 + count_unsafe_blocks(seq![b.rules], false)
                    + count_unsafe_blocks(forest_modes(kids.subrange(0, i as int)), false),
                self.user_unsafe_blocks == s0 + count_unsafe_blocks(seq![b.rules], true)
                    + count_unsafe_blocks(forest_modes(kids.subrange(0, i as int)), true),
                self.unsafe_blocks <= self.total_blocks,
                self.user_unsafe_blocks <= self.unsafe_blocks,
            decreases b.nested.len() - i,
        {
            let ghost pre = kids.subrange(0, i as int);
            let ghost next = kids.subrange(0, i + 1);
            proof {
                assert(next.subrange(0, next.len() - 1) =~= pre);
                assert(next[next.len() - 1] == kids[i as int]);
                assert(forest_modes(next) == forest_modes(pre) + tree_modes(kids[i as int]));
                lemma_count_append(forest_modes(pre), tree_modes(kids[i as int]), false);
                lemma_count_append(forest_modes(pre), tree_modes(kids[i as int]), true);
                lemma_forest_prefix(kids, i + 1);
                assert(decreases_to!(b => b.nested));
                assert(decreases_to!(b.nested => b.nested@));
                assert(decreases_to!(b.nested@ => b.nested@[i as int]));
            }
            self.visit_block(&b.nested[i]);
            i = i + 1;
        }
        proof {
            assert(kids.subrange(0, kids.len() as int) =~= kids);
            lemma_counts_ordered(all);
        }
    }
}

/// The block counts of a crate whose blocks, in walk order, have the given
/// modes.
pub fn run_summary_analysis(blocks: &Vec<BlockCheckMode>) -> (r: BlockSummary)
    ensures
        r.user_unsafe_blocks == count_unsafe_blocks(blocks@, true),
        r.unsafe_blocks == count_unsafe_blocks(blocks@, false),
        r.total == blocks@.len(),
        r.user_unsafe_blocks <= r.unsafe_blocks <= r.total,
{
    let mut visitor = BlockVisitor::new();
    let mut i: usize = 0;
    while i < blocks.len()
        invariant
            i <= blocks.len(),
            visitor.total_blocks == i,
            visitor.unsafe_blocks == count_unsafe_blocks(blocks@.take(i as int), false),
            visitor.user_unsafe_blocks == count_unsafe_blocks(blocks@.take(i as int), true),
            visitor.unsafe_blocks <= visitor.total_blocks,
            visitor.user_unsafe_blocks <= visitor.unsafe_blocks,
        decreases blocks.len() - i,
    {
        assert(blocks@.take(i + 1).drop_last() =~= blocks@.take(i as int));
        visitor.count_block(blocks[i]);
        i = i + 1;
    }
    assert(blocks@.take(blocks.len() as int) =~= blocks@);
    BlockSummary::new(visitor.user_unsafe_blocks, visitor.unsafe_blocks, visitor.total_blocks)
}

/// The unsafe operations found in the unsafe blocks of one function.
pub struct BlockUnsafetySourcesAnalysis {
    sources: Vec<BlockUnsafetySource>,
}

impl BlockUnsafetySourcesAnalysis {
    pub closed spec fn spec_sources(&self) -> Seq<BlockUnsafetySource> {
        self.sources@
    }

    pub fn new() -> (r: Self)
        ensures
            r.spec_sources().len() == 0,
    {
        BlockUnsafetySourcesAnalysis { sources: Vec::new() }
    }

    pub fn sources(&self) -> (r: &Vec<BlockUnsafetySource>)
        ensures
            r@ == self.spec_sources(),
    {
        &self.sources
    }

    /// Records the operation `source` of the block `block_id`.
    pub fn add_source(&mut self, block_id: String, user_provided: bool, source: Source)
        ensures
            final(self).spec_sources() == old(self).spec_sources().push(
                BlockUnsafetySource { block_id, source },
            ),
    {
        self.sources.push(BlockUnsafetySource { block_id, source });
    }

    /// Records an operation of kind `kind` at `loc` in the unsafe block whose
    /// node id is `block_id`.
    pub fn add_unsafety_source(
        &mut self,
        kind: SourceKind,
        loc: String,
        block_id: u32,
        user_provided: bool,
    )
        ensures
            final(self).spec_sources().len() == old(self).spec_sources().len() + 1,
            final(self).spec_sources().drop_last() == old(self).spec_sources(),
            final(self).spec_sources().last().block_id@ == decimal(block_id as nat),
            final(self).spec_sources().last().source == (Source { loc, kind, user_provided }),
    {
        let source = Source { kind, user_provided, loc };
        let id = u32_to_decimal(block_id);
        self.add_source(id, user_provided, source);
    }

    /// The recorded operations, given up by the analysis.
    pub fn into_sources(self) -> (r: Vec<BlockUnsafetySource>)
        ensures
            r@ == self.spec_sources(),
    {
        self.sources
    }
}

/// The operations of a list of analyses, one after the other.
pub open spec fn all_sources(v: Seq<BlockUnsafetySourcesAnalysis>) -> Seq<BlockUnsafetySource>
    decreases v.len(),
{
    if v.len() == 0 {
        Seq::empty()
    } else {
        all_sources(v.drop_last()) + v.last().spec_sources()
    }
}

/// The lists of `parts` joined from the last to the first.
pub open spec fn concat_rev(parts: Seq<Vec<BlockUnsafetySource>>) -> Seq<BlockUnsafetySource>
    decreases parts.len(),
{
    if parts.len() == 0 {
        Seq::empty()
    } else {
        parts.last()@ + concat_rev(parts.drop_last())
    }
}

/// The unsafe operations of the unsafe blocks of all the functions, function
/// by function in order.
pub fn run_unsafety_sources_analysis(analyses: Vec<BlockUnsafetySourcesAnalysis>) -> (r: Vec<BlockUnsafetySource>)
    ensures
        r@ == all_sources(analyses@),
{
    let ghost all = analyses@;
    let mut rest = analyses;
    let mut parts: Vec<Vec<BlockUnsafetySource>> = Vec::new();
    assert(all_sources(rest@) + concat_rev(parts@) =~= all_sources(all));
    while rest.len() > 0
        invariant
            all_sources(rest@) + concat_rev(parts@) == all_sources(all),
        decreases rest.len(),
    {
        let ghost before_rest = rest@;
        let ghost before_parts = parts@;
        let a = rest.pop().unwrap();
        let s = a.into_sources();
        parts.push(s);
        assert(parts@.drop_last() =~= before_parts);
        assert(all_sources(rest@) + concat_rev(parts@) =~= all_sources(before_rest) + concat_rev(
            before_parts,
        ));
    }
    let mut res: Vec<BlockUnsafetySource> = Vec::new();
    assert(res@ + concat_rev(parts@) =~= all_sources(all));
    while parts.len() > 0
        invariant
            res@ + concat_rev(parts@) == all_sources(all),
        decreases parts.len(),
    {
        let ghost before_res = res@;
        let ghost before_parts = parts@;
        let mut p = parts.pop().unwrap();
        assert(before_parts.drop_last() =~= parts@);
        res.append(&mut p);
        assert(res@ + concat_rev(parts@) =~= before_res + concat_rev(before_parts));
    }
    assert(res@ + Seq::<BlockUnsafetySource>::empty() =~= res@);
    res
}

} // verus!
