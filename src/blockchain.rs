//! The chain of accepted blocks and the rules a new block must meet to extend it.
use vstd::prelude::*;
use crate::block::{block_digest, check_blockhash, meets_difficulty, Block};

verus! {

/// Why a block cannot extend the chain.
#[derive(Debug, Clone, Copy, PartialEq, Eq, Structural)]
pub enum BlockValidationErr {
    MismatchedIndex,
    InvalidHash,
    AchronologicalTimestamp,
    MismatchedPreviousHash,
    InvalidGenesisBlockFormat,
}

impl BlockValidationErr {
    /// The variant's name.
    pub fn name(&self) -> (r: String)
        ensures
            r@ == crate::validator::err_text(*self),
    {
        match self {
            BlockValidationErr::MismatchedIndex => "MismatchedIndex".to_owned(),
            BlockValidationErr::InvalidHash => "InvalidHash".to_owned(),
            BlockValidationErr::AchronologicalTimestamp => "AchronologicalTimestamp".to_owned(),
            BlockValidationErr::MismatchedPreviousHash => "MismatchedPreviousHash".to_owned(),
            BlockValidationErr::InvalidGenesisBlockFormat => "InvalidGenesisBlockFormat".to_owned(),
        }
    }
}

/// What is wrong with `b` as the next block after `blocks`, checked in order:
/// its index, its proof of work, then its link to the previous block (or, for
/// the first block, an all-zero previous hash).
pub open spec fn extension_error(blocks: Seq<Block>, difficulty: u128, b: Block) -> Option<
    BlockValidationErr,
> {
    if b.index != blocks.len() {
        Some(BlockValidationErr::MismatchedIndex)
    } else if !meets_difficulty(block_digest(b), difficulty) {
        Some(BlockValidationErr::InvalidHash)
    } else if blocks.len() > 0 {
        if b.timestamp <= blocks.last().timestamp {
            Some(BlockValidationErr::AchronologicalTimestamp)
        } else if b.prev_block_hash@ != blocks.last().hash@ {
            Some(BlockValidationErr::MismatchedPreviousHash)
        } else {
            None
        }
    } else if b.prev_block_hash@ != Seq::new(32, |i: int| 0u8) {
        Some(BlockValidationErr::InvalidGenesisBlockFormat)
    } else {
        None
    }
}

/// The accepted blocks and the proof-of-work difficulty they are held to.
pub struct Blockchain {
    pub blocks: Vec<Block>,
    pub difficulty: u128,
}

pub(crate) fn same_bytes(a: &Vec<u8>, b: &Vec<u8>) -> (r: bool)
    ensures
        r == (a@ == b@),
{
    if a.len() != b.len() {
        return false;
    }
    let mut i: usize = 0;
    while i < a.len()
        invariant
            i <= a@.len(),
            a@.len() == b@.len(),
            forall|j: int| 0 <= j < i ==> a@[j] == b@[j],
        decreases a@.len() - i,
    {
        if a[i] != b[i] {
            return false;
        }
        i = i + 1;
    }
    assert(a@ =~= b@);
    true
}

fn is_all_zero_hash(a: &Vec<u8>) -> (r: bool)
    ensures
        r == (a@ == Seq::new(32, |i: int| 0u8)),
{
    if a.len() != 32 {
        return false;
    }
    let mut i: usize = 0;
    while i < 32
        invariant
            i <= 32,
            a@.len() == 32,
            forall|j: int| 0 <= j < i ==> a@[j] == 0u8,
        decreases 32 - i,
    {
        if a[i] != 0 {
            assert(a@[i as int] != Seq::new(32, |k: int| 0u8)[i as int]);
            return false;
        }
        i = i + 1;
    }
    assert(a@ =~= Seq::new(32, |k: int| 0u8));
    true
}

impl Blockchain {
    /// An empty chain held to `difficulty`.
    pub fn new_with_diff(difficulty: u128) -> (r: Self)
        ensures
            r.blocks@.len() == 0,
            r.difficulty == difficulty,
    {
        Blockchain { blocks: Vec::new(), difficulty }
    }

    /// The proof-of-work difficulty.
    pub fn get_difficulty(&self) -> (r: u128)
        ensures
            r == self.difficulty,
    {
        self.difficulty
    }

    /// The timestamp of the last block, if there is one.
    pub fn tip_timestamp(&self) -> (r: Option<u128>)
        ensures
            self.blocks@.len() == 0 ==> r is None,
            self.blocks@.len() > 0 ==> r == Some(self.blocks@.last().timestamp),
    {
        if self.blocks.len() == 0 {
            None
        } else {
            Some(self.blocks[self.blocks.len() - 1].timestamp)
        }
    }

    /// Appends `block` if it may extend the chain; otherwise leaves the chain
    /// as it is and says why not.
    pub fn update_with_block(&mut self, block: Block) -> (r: Result<(), BlockValidationErr>)
        ensures
            final(self).difficulty == old(self).difficulty,
            match extension_error(old(self).blocks@, old(self).difficulty, block) {
                Some(e) => r == Err::<(), BlockValidationErr>(e) && *final(self) == *old(self),
                None => r is Ok && final(self).blocks@ == old(self).blocks@.push(block),
            },
    {
        let n = self.blocks.len();
        if block.index as usize != n {
            return Err(BlockValidationErr::MismatchedIndex);
        }
        let digest = block.hash();
        if !check_blockhash(&digest, self.difficulty) {
            return Err(BlockValidationErr::InvalidHash);
        }
        if n > 0 {
            let prev = &self.blocks[n - 1];
            if block.timestamp <= prev.timestamp {
                return Err(BlockValidationErr::AchronologicalTimestamp);
            }
            if !same_bytes(&block.prev_block_hash, &prev.hash) {
                return Err(BlockValidationErr::MismatchedPreviousHash);
            }
        } else if !is_all_zero_hash(&block.prev_block_hash) {
            return Err(BlockValidationErr::InvalidGenesisBlockFormat);
        }
        self.blocks.push(block);
        Ok(())
    }
}

} // verus!
