//! The chain: a non-empty sequence of sealed blocks, each linked to the one
//! before it, that only grows at its tip.
use vstd::prelude::*;

use crate::digest::meets_target;
use crate::block::{genesis_payload, unsolvable, Block, BlockView, ChainError, DEFAULT_DIFFICULTY};
use crate::clock::unix_time_secs;

verus! {

/// Each block after the first names its predecessor's hash and stands one
/// higher.
pub open spec fn linked(blocks: Seq<BlockView>) -> bool {
    forall|i: int|
        1 <= i < blocks.len() ==> {
            &&& #[trigger] blocks[i].prev_hash == blocks[i - 1].hash
            &&& blocks[i].height == blocks[i - 1].height + 1
        }
}

/// A well-formed ledger: a genesis block first, every block mined at the
/// default difficulty and standing at its own index, and all of them linked.
pub open spec fn is_ledger(blocks: Seq<BlockView>) -> bool {
    &&& blocks.len() >= 1
    &&& blocks[0].payload == genesis_payload()
    &&& blocks[0].prev_hash.len() == 0
    &&& linked(blocks)
    &&& forall|i: int|
        0 <= i < blocks.len() ==> {
            &&& #[trigger] blocks[i].is_mined()
            &&& blocks[i].height == i
            &&& blocks[i].difficulty == DEFAULT_DIFFICULTY
        }
}

/// An append-only ledger of proof-of-work blocks.
#[derive(Debug)]
pub struct Blockchain {
    blocks: Vec<Block>,
}

impl View for Blockchain {
    type V = Seq<BlockView>;

    closed spec fn view(&self) -> Seq<BlockView> {
        self.blocks@.map_values(|b: Block| b@)
    }
}

impl Blockchain {
    /// The chain is a well-formed ledger.
    pub open spec fn wf(&self) -> bool {
        is_ledger(self@)
    }

    /// A chain that holds a genesis block sealed at the given time.
    pub fn new_at(timestamp: u64) -> (r: Result<Blockchain, ChainError>)
        ensures
            match r {
                Ok(c) => {
                    &&& c.wf()
                    &&& c@.len() == 1
                    &&& c@[0].payload == genesis_payload()
                    &&& c@[0].prev_hash.len() == 0
                    &&& c@[0].height == 0
                    &&& c@[0].timestamp == timestamp
                    &&& c@[0].is_mined()
                },
                Err(e) => e == ChainError::PuzzleUnsolved && unsolvable(
                    Seq::empty(),
                    genesis_payload(),
                    timestamp,
                    DEFAULT_DIFFICULTY,
                ),
            },
    {
        match Block::genesis_at(timestamp) {
            Ok(genesis) => {
                let blocks = vec![genesis];
                assert(blocks@.map_values(|b: Block| b@) =~= seq![genesis@]);
                Ok(Blockchain { blocks })
            },
            Err(e) => Err(e),
        }
    }

    /// A chain that holds a genesis block sealed at the current wall-clock
    /// time.
    pub fn new() -> (r: Result<Blockchain, ChainError>)
        ensures
            match r {
                Ok(c) => {
                    &&& c.wf()
                    &&& c@.len() == 1
                    &&& c@[0].payload == genesis_payload()
                    &&& c@[0].prev_hash.len() == 0
                    &&& c@[0].height == 0
                    &&& c@[0].is_mined()
                },
                Err(e) => e == ChainError::Clock || (e == ChainError::PuzzleUnsolved && exists|
                    t: u64,
                | #[trigger] unsolvable(Seq::empty(), genesis_payload(), t, DEFAULT_DIFFICULTY)),
            },
    {
        match unix_time_secs() {
            Some(timestamp) => Blockchain::new_at(timestamp),
            None => Err(ChainError::Clock),
        }
    }

    /// Seals a block holding `data`, stamped with `timestamp`, on top of the
    /// tip and appends it. On an error the chain is left as it was.
    pub fn add_block_at(&mut self, data: String, timestamp: u64) -> (r: Result<(), ChainError>)
        requires
            old(self).wf(),
        ensures
            final(self).wf(),
            match r {
                Ok(()) => {
                    let n = old(self)@.len() as int;
                    &&& final(self)@.len() == n + 1
                    &&& final(self)@.subrange(0, n) == old(self)@
                    &&& final(self)@[n].payload == data@
                    &&& final(self)@[n].prev_hash == old(self)@[n - 1].hash
                    &&& final(self)@[n].height == old(self)@[n - 1].height + 1
                    &&& final(self)@[n].timestamp == timestamp
                    &&& final(self)@[n].is_mined()
                },
                Err(e) => {
                    &&& final(self)@ == old(self)@
                    &&& e == ChainError::PuzzleUnsolved
                    &&& unsolvable(old(self)@.last().hash, data@, timestamp, DEFAULT_DIFFICULTY)
                },
            },
    {
        let last = self.blocks.len() - 1;
        let prev = &self.blocks[last];
        assert(prev@ == self@[last as int]);
        assert(self@[last as int].is_mined());
        let prev_hash = prev.get_hash();
        assert(prev_hash@ == self@.last().hash);
        let block = match Block::mine(
            data,
            prev_hash,
            prev.height() + 1,
            timestamp,
            DEFAULT_DIFFICULTY,
        ) {
            Ok(b) => b,
            Err(e) => return Err(e),
        };
        let ghost before = self@;
        self.blocks.push(block);
        assert(self@ =~= before.push(block@));
        assert forall|i: int| 0 <= i < self@.len() implies {
            &&& #[trigger] self@[i].is_mined()
            &&& self@[i].height == i
            &&& self@[i].difficulty == DEFAULT_DIFFICULTY
        } by {
            if i < before.len() {
                assert(before[i].is_mined());
            }
        }
        Ok(())
    }

    /// Seals a block holding `data`, stamped with the current wall-clock
    /// time, on top of the tip and appends it. On an error the chain is
    /// left as it was.
    pub fn add_block(&mut self, data: String) -> (r: Result<(), ChainError>)
        requires
            old(self).wf(),
        ensures
            final(self).wf(),
            match r {
                Ok(()) => {
                    let n = old(self)@.len() as int;
                    &&& final(self)@.len() == n + 1
                    &&& final(self)@.subrange(0, n) == old(self)@
                    &&& final(self)@[n].payload == data@
                    &&& final(self)@[n].prev_hash == old(self)@[n - 1].hash
                    &&& final(self)@[n].height == old(self)@[n - 1].height + 1
                    &&& final(self)@[n].is_mined()
                },
                Err(e) => {
                    &&& final(self)@ == old(self)@
                    &&& (e == ChainError::Clock || (e == ChainError::PuzzleUnsolved && exists|
                        t: u64,
                    | #[trigger] unsolvable(
                        old(self)@.last().hash,
                        data@,
                        t,
                        DEFAULT_DIFFICULTY,
                    )))
                },
            },
    {
        match unix_time_secs() {
            Some(timestamp) => self.add_block_at(data, timestamp),
            None => Err(ChainError::Clock),
        }
    }

    /// The number of blocks; at least 1.
    pub fn len(&self) -> (r: usize)
        requires
            self.wf(),
        ensures
            r == self@.len(),
            r >= 1,
    {
        self.blocks.len()
    }

    /// The most recently appended block.
    pub fn tip(&self) -> (r: &Block)
        requires
            self.wf(),
        ensures
            r@ == self@.last(),
    {
        let last = self.blocks.len() - 1;
        &self.blocks[last]
    }

    /// The block at height `i`, if the chain is that long.
    pub fn block(&self, i: usize) -> (r: Option<&Block>)
        ensures
            match r {
                Some(b) => i < self@.len() && b@ == self@[i as int],
                None => i >= self@.len(),
            },
    {
        if i < self.blocks.len() {
            Some(&self.blocks[i])
        } else {
            None
        }
    }
}

/// In a well-formed chain every block after the genesis block names its
/// predecessor's hash as its previous hash and stands one higher.
pub proof fn lemma_chain_linked(c: &Blockchain)
    requires
        c.wf(),
    ensures
        forall|i: int|
            1 <= i < c@.len() ==> {
                &&& #[trigger] c@[i].prev_hash == c@[i - 1].hash
                &&& c@[i].height == c@[i - 1].height + 1
            },
{
}

/// In a well-formed chain every block passes validation, and its stored hash
/// is its recomputed digest, so the hash is 64 hex characters and starts
/// with `difficulty` zeros.
pub proof fn lemma_chain_blocks_valid(c: &Blockchain)
    requires
        c.wf(),
    ensures
        forall|i: int|
            0 <= i < c@.len() ==> {
                &&& (#[trigger] c@[i]).is_valid()
                &&& c@[i].hash == c@[i].digest()
                &&& meets_target(c@[i].hash, c@[i].difficulty as nat)
                &&& c@[i].hash.len() == 64
            },
{
    assert forall|i: int| 0 <= i < c@.len() implies {
        &&& (#[trigger] c@[i]).is_valid()
        &&& c@[i].hash == c@[i].digest()
        &&& meets_target(c@[i].hash, c@[i].difficulty as nat)
        &&& c@[i].hash.len() == 64
    } by {
        assert(c@[i].is_mined());
    }
}

} // verus!
