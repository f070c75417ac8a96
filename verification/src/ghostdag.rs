//! The mergeset data the reward distributor consumes: the blue/red partition
//! of a block's mergeset, the per-ancestor reward records, and the set of
//! ancestors outside the difficulty-adjustment window.

use vstd::prelude::*;

use crate::hash::BlockHash;
use crate::tx::BlockRewardData;

verus! {

/// The fields of the DAG-ordering data that the coinbase builder reads: the
/// block's blue score and its mergeset, partitioned into blues and reds.
/// Both lists keep the order the DAG-ordering module fixed for them.
#[derive(Clone, Debug)]
pub struct GhostdagData {
    pub blue_score: u64,
    pub mergeset_blues: Vec<BlockHash>,
    pub mergeset_reds: Vec<BlockHash>,
}

impl GhostdagData {
    pub fn new(blue_score: u64, mergeset_blues: Vec<BlockHash>, mergeset_reds: Vec<BlockHash>)
        -> (gd: GhostdagData)
        ensures
            gd.blue_score == blue_score,
            gd.mergeset_blues@ == mergeset_blues@,
            gd.mergeset_reds@ == mergeset_reds@,
    {
        GhostdagData { blue_score, mergeset_blues, mergeset_reds }
    }
}

/// Whether a list of hashes holds `h` (compared by bytes).
pub open spec fn hashes_contain(items: Seq<BlockHash>, h: Seq<u8>) -> bool {
    exists|i: int| 0 <= i < items.len() && items[i]@ == h
}

/// A set of block hashes, here the mergeset members outside the
/// difficulty-adjustment window.
#[derive(Clone, Debug)]
pub struct BlockHashSet {
    pub items: Vec<BlockHash>,
}

impl BlockHashSet {
    /// Whether the set holds `h`.
    pub open spec fn contains_spec(&self, h: Seq<u8>) -> bool {
        hashes_contain(self.items@, h)
    }

    pub fn new() -> (s: BlockHashSet)
        ensures
            forall|h: Seq<u8>| !s.contains_spec(h),
    {
        BlockHashSet { items: Vec::new() }
    }

    pub fn insert(&mut self, h: BlockHash)
        ensures
            forall|g: Seq<u8>|
                final(self).contains_spec(g) == (old(self).contains_spec(g) || g == h@),
    {
        let ghost pre = self.items@;
        self.items.push(h);
        proof {
            assert forall|g: Seq<u8>|
                final(self).contains_spec(g) == (hashes_contain(pre, g) || g == h@) by {
                if hashes_contain(pre, g) {
                    let i = choose|i: int| 0 <= i < pre.len() && pre[i]@ == g;
                    assert(self.items@[i]@ == g);
                }
                if g == h@ {
                    assert(self.items@[pre.len() as int]@ == g);
                }
                if final(self).contains_spec(g) {
                    let i = choose|i: int|
                        0 <= i < self.items@.len() && self.items@[i]@ == g;
                    if i < pre.len() {
                        assert(pre[i]@ == g);
                    }
                }
            }
        }
    }

    pub fn contains(&self, h: &BlockHash) -> (r: bool)
        ensures
            r == self.contains_spec(h@),
    {
        let mut i: usize = 0;
        while i < self.items.len()
            invariant
                i <= self.items@.len(),
                forall|j: int| 0 <= j < i ==> self.items@[j]@ != h@,
            decreases self.items@.len() - i,
        {
            if self.items[i].equals(h) {
                return true;
            }
            i += 1;
        }
        false
    }
}

/// First the recursion looks at the last entry, so a later `insert` of the
/// same key takes precedence, as it would in a hash map.
pub open spec fn reward_lookup(
    entries: Seq<(BlockHash, BlockRewardData)>,
    h: Seq<u8>,
) -> Option<BlockRewardData>
    decreases entries.len(),
{
    if entries.len() == 0 {
        None
    } else if entries.last().0@ == h {
        Some(entries.last().1)
    } else {
        reward_lookup(entries.drop_last(), h)
    }
}

/// Maps each mergeset ancestor to its reward record. Backed by an
/// association list keyed by the 32 hash bytes; the last binding of a key is
/// the one in force.
#[derive(Clone, Debug)]
pub struct BlockRewardMap {
    pub entries: Vec<(BlockHash, BlockRewardData)>,
}

impl BlockRewardMap {
    /// The record bound to `h`, if any.
    pub open spec fn lookup(&self, h: Seq<u8>) -> Option<BlockRewardData> {
        reward_lookup(self.entries@, h)
    }

    pub fn new() -> (m: BlockRewardMap)
        ensures
            forall|h: Seq<u8>| m.lookup(h) is None,
    {
        BlockRewardMap { entries: Vec::new() }
    }

    pub fn insert(&mut self, h: BlockHash, d: BlockRewardData)
        ensures
            final(self).lookup(h@) == Some(d),
            forall|g: Seq<u8>| g != h@ ==> final(self).lookup(g) == old(self).lookup(g),
    {
        let ghost pre = self.entries@;
        self.entries.push((h, d));
        proof {
            assert(self.entries@.last() == (h, d));
            assert(self.entries@.drop_last() =~= pre);
        }
    }

    pub fn get(&self, h: &BlockHash) -> (r: Option<&BlockRewardData>)
        ensures
            match r {
                Some(d) => self.lookup(h@) == Some(*d),
                None => self.lookup(h@) is None,
            },
    {
        let mut i: usize = self.entries.len();
        proof {
            assert(self.entries@.take(self.entries@.len() as int) =~= self.entries@);
        }
        while i > 0
            invariant
                i <= self.entries@.len(),
                reward_lookup(self.entries@, h@) == reward_lookup(self.entries@.take(i as int), h@),
            decreases i,
        {
            i -= 1;
            let ghost upto = self.entries@.take(i as int + 1);
            proof {
                assert(upto.last() == self.entries@[i as int]);
                assert(upto.drop_last() =~= self.entries@.take(i as int));
            }
            if self.entries[i].0.equals(h) {
                return Some(&self.entries[i].1);
            }
        }
        None
    }
}

} // verus!
