//! The execution-layer block store the history service and the
//! reconciler read: blocks addressable by number and by hash, with the
//! most recent insertion winning a lookup.

use vstd::prelude::*;

use crate::copying::{copy_byte_lists, copy_plain_vec, copy_withdrawals};
use crate::types::{BlockHash, ExecutionPayloadBody, Withdrawal};

verus! {

/// A stored block, reduced to what the Engine API reads of it: its
/// number, its hash, and its body.
#[derive(Clone, PartialEq, Eq, Debug)]
pub struct Block {
    pub number: u64,
    pub hash: BlockHash,
    pub transactions: Vec<Vec<u8>>,
    pub ommers: Vec<BlockHash>,
    pub withdrawals: Option<Vec<Withdrawal>>,
}

/// Whether `body` is the body projection of `block`: the same
/// transactions, ommers and withdrawals, with absence of withdrawals
/// preserved.
pub open spec fn body_of_block(body: ExecutionPayloadBody, block: Block) -> bool {
    &&& body@.transactions == block.transactions.deep_view()
    &&& body@.ommers == block.ommers@
    &&& match block.withdrawals {
        Some(ws) => (body@.withdrawals matches Some(bs) && bs == ws@),
        None => body@.withdrawals is None,
    }
}

/// The block a number lookup yields on `blocks`: the most recently
/// inserted block carrying `number`, if any.
pub open spec fn latest_by_number(blocks: Seq<Block>, number: u64) -> Option<Block>
    decreases blocks.len(),
{
    if blocks.len() == 0 {
        None
    } else if blocks.last().number == number {
        Some(blocks.last())
    } else {
        latest_by_number(blocks.drop_last(), number)
    }
}

/// The block a hash lookup yields on `blocks`: the most recently
/// inserted block carrying `hash`, if any.
pub open spec fn latest_by_hash(blocks: Seq<Block>, hash: BlockHash) -> Option<Block>
    decreases blocks.len(),
{
    if blocks.len() == 0 {
        None
    } else if blocks.last().hash == hash {
        Some(blocks.last())
    } else {
        latest_by_hash(blocks.drop_last(), hash)
    }
}

/// The hash the store reports for a block number, if it holds one.
pub open spec fn hash_at(blocks: Seq<Block>, number: u64) -> Option<BlockHash> {
    match latest_by_number(blocks, number) {
        Some(b) => Some(b.hash),
        None => None,
    }
}

/// The execution-layer block store, viewed as the sequence of blocks
/// inserted into it, oldest first.
#[derive(Debug)]
pub struct BlockStore {
    pub blocks: Vec<Block>,
}

impl View for BlockStore {
    type V = Seq<Block>;

    open spec fn view(&self) -> Seq<Block> {
        self.blocks@
    }
}

impl BlockStore {
    /// An empty store.
    pub fn new() -> (r: BlockStore)
        ensures
            r@ == Seq::<Block>::empty(),
    {
        BlockStore { blocks: Vec::new() }
    }

    /// Insert a block. A later insertion with the same number or hash
    /// shadows an earlier one.
    pub fn insert(&mut self, block: Block)
        ensures
            final(self)@ == old(self)@.push(block),
    {
        self.blocks.push(block);
    }

    /// Look a block up by number.
    pub fn block_by_number(&self, number: u64) -> (r: Option<&Block>)
        ensures
            match r {
                Some(b) => latest_by_number(self@, number) == Some(*b),
                None => latest_by_number(self@, number) is None,
            },
    {
        let mut i: usize = self.blocks.len();
        proof {
            assert(self@.subrange(0, self@.len() as int) =~= self@);
        }
        while i > 0
            invariant
                i <= self.blocks.len(),
                latest_by_number(self@, number) == latest_by_number(
                    self@.subrange(0, i as int),
                    number,
                ),
            decreases i,
        {
            i = i - 1;
            proof {
                let scanned = self@.subrange(0, (i + 1) as int);
                assert(scanned.last() == self@[i as int]);
                assert(scanned.drop_last() =~= self@.subrange(0, i as int));
            }
            if self.blocks[i].number == number {
                return Some(&self.blocks[i]);
            }
        }
        proof {
            assert(self@.subrange(0, 0) =~= Seq::<Block>::empty());
        }
        None
    }

    /// Look a block up by hash.
    pub fn block_by_hash(&self, hash: BlockHash) -> (r: Option<&Block>)
        ensures
            match r {
                Some(b) => latest_by_hash(self@, hash) == Some(*b),
                None => latest_by_hash(self@, hash) is None,
            },
    {
        let mut i: usize = self.blocks.len();
        proof {
            assert(self@.subrange(0, self@.len() as int) =~= self@);
        }
        while i > 0
            invariant
                i <= self.blocks.len(),
                latest_by_hash(self@, hash) == latest_by_hash(self@.subrange(0, i as int), hash),
            decreases i,
        {
            i = i - 1;
            proof {
                let scanned = self@.subrange(0, (i + 1) as int);
                assert(scanned.last() == self@[i as int]);
                assert(scanned.drop_last() =~= self@.subrange(0, i as int));
            }
            if self.blocks[i].hash == hash {
                return Some(&self.blocks[i]);
            }
        }
        proof {
            assert(self@.subrange(0, 0) =~= Seq::<Block>::empty());
        }
        None
    }

    /// The hash of the block stored at `number`, if any.
    pub fn block_hash(&self, number: u64) -> (r: Option<BlockHash>)
        ensures
            r == hash_at(self@, number),
    {
        match self.block_by_number(number) {
            Some(b) => Some(b.hash),
            None => None,
        }
    }
}

impl Block {
    /// Project the block to the body shape a payload-bodies reply
    /// carries.
    pub fn body(&self) -> (r: ExecutionPayloadBody)
        ensures
            body_of_block(r, *self),
    {
        ExecutionPayloadBody {
            transactions: copy_byte_lists(&self.transactions),
            ommers: copy_plain_vec(&self.ommers),
            withdrawals: copy_withdrawals(&self.withdrawals),
        }
    }
}

} // verus!
