//! The chain: an append-only sequence of blocks, and the checks that keep it
//! linked, sealed and counted.

use crate::block::{Block, BlockView, HASH_LEN};
use crate::laws::law_accepted_chain_stays_valid;
use vstd::prelude::*;

verus! {

/// What can be wrong with a block at its place in a chain.
#[derive(Clone, Copy, Debug, PartialEq, Eq, Structural)]
pub enum Fault {
    /// The block does not name the hash of the block before it. The first
    /// block has none before it and cannot have this fault.
    BrokenLink,
    /// The block's hash is not the digest of its timestamp and predecessor
    /// hash.
    BadHash,
    /// The block's height is not its position in the chain.
    BadHeight,
}

/// The first fault of a chain and the position at which it was found.
#[derive(Clone, Copy, Debug, PartialEq, Eq, Structural)]
pub struct Violation {
    /// The position of the offending block.
    pub index: usize,
    /// What is wrong with it.
    pub fault: Fault,
}

/// How a chain answers a block that asks to be appended.
#[derive(Clone, Copy, Debug, PartialEq, Eq, Structural)]
pub enum Admission {
    /// The block extends the tip and is sealed.
    Accepted,
    /// The chain has no block to extend.
    EmptyChain,
    /// The block does not name the hash of the tip.
    PrevHashMismatch,
    /// The block names the tip, but its own hash is not the digest of its
    /// fields.
    HashMismatch,
}

/// The views of a sequence of blocks, block by block.
pub open spec fn views(blocks: Seq<Block>) -> Seq<BlockView> {
    blocks.map_values(|block: Block| block@)
}

/// The block at position `i` names the hash of the block before it. Of the
/// first block, which has none before it, nothing is asked.
pub open spec fn linked_at(chain: Seq<BlockView>, i: int) -> bool {
    i > 0 ==> chain[i].prev_hash == chain[i - 1].hash
}

/// The block at position `i` is in order: linked to its predecessor, sealed,
/// and at the height of its position.
pub open spec fn in_order_at(chain: Seq<BlockView>, i: int) -> bool {
    &&& linked_at(chain, i)
    &&& chain[i].sealed()
    &&& chain[i].height == i
}

/// What is wrong with the block at position `i`, if anything: nothing, where
/// the block is in order. The link to the predecessor is judged first, then
/// the block's own hash, then its height.
pub open spec fn fault_at(chain: Seq<BlockView>, i: int) -> Option<Fault> {
    if !linked_at(chain, i) {
        Some(Fault::BrokenLink)
    } else if !chain[i].sealed() {
        Some(Fault::BadHash)
    } else if chain[i].height != i {
        Some(Fault::BadHeight)
    } else {
        None
    }
}

/// Every block of the chain is in order.
pub open spec fn valid_chain(chain: Seq<BlockView>) -> bool {
    forall|i: int| 0 <= i < chain.len() ==> in_order_at(chain, i)
}

/// `fault` at position `i` is the first fault of the chain: every block
/// before `i` is in order.
pub open spec fn first_fault(chain: Seq<BlockView>, i: int, fault: Fault) -> bool {
    &&& 0 <= i < chain.len()
    &&& fault_at(chain, i) == Some(fault)
    &&& forall|j: int| 0 <= j < i ==> in_order_at(chain, j)
}

/// The answer of `chain` to `block`: a block is accepted when the chain has a
/// tip, the block names the tip's hash, and the block is sealed.
pub open spec fn admission_of(chain: Seq<BlockView>, block: BlockView) -> Admission {
    if chain.len() == 0 {
        Admission::EmptyChain
    } else if block.prev_hash != chain.last().hash {
        Admission::PrevHashMismatch
    } else if !block.sealed() {
        Admission::HashMismatch
    } else {
        Admission::Accepted
    }
}

/// `chain` accepts `block`.
pub open spec fn admits(chain: Seq<BlockView>, block: BlockView) -> bool {
    admission_of(chain, block) is Accepted
}

/// The chain after `block` asked to be appended: one block longer where it
/// was accepted, unchanged where it was not.
pub open spec fn appended(chain: Seq<BlockView>, block: BlockView) -> Seq<BlockView> {
    if admits(chain, block) {
        chain.push(block)
    } else {
        chain
    }
}

/// What becomes of blocks that come from outside and ask to be a chain: they
/// are taken as they are where they form a valid chain, and refused where
/// they do not.
pub open spec fn reloaded(blocks: Seq<BlockView>) -> Option<Seq<BlockView>> {
    if valid_chain(blocks) {
        Some(blocks)
    } else {
        None
    }
}

/// A chain of blocks.
///
/// The chain is seen as the sequence of its blocks' views. It changes only
/// by taking a block at its end: nothing that is there is ever removed or
/// reordered.
#[derive(Debug)]
pub struct Blockchain {
    blocks: Vec<Block>,
}

impl View for Blockchain {
    type V = Seq<BlockView>;

    closed spec fn view(&self) -> Seq<BlockView> {
        views(self.blocks@)
    }
}

impl Blockchain {
    /// Starts a chain with a fresh genesis block. No chain is started where
    /// the clock is set before the Unix epoch.
    pub fn new() -> (built: Option<Blockchain>)
        ensures
            built matches Some(chain) ==> {
                &&& chain@.len() == 1
                &&& chain@[0].is_genesis()
                &&& chain@[0].hash.len() == HASH_LEN
                &&& valid_chain(chain@)
            },
    {
        match Block::genesis_block() {
            Some(genesis) => Some(Blockchain::with_genesis(genesis)),
            None => None,
        }
    }

    /// The chain that holds `genesis` and nothing else.
    fn with_genesis(genesis: Block) -> (chain: Blockchain)
        ensures
            chain@ == seq![genesis@],
    {
        let mut blocks: Vec<Block> = Vec::new();
        blocks.push(genesis);
        Blockchain { blocks }
    }

    /// Builds a chain from blocks that come from outside, after checking them
    /// all. A sequence with a fault is refused with its first fault.
    pub fn from_blocks(data: Vec<Block>) -> (built: Result<Blockchain, Violation>)
        ensures
            built is Ok == valid_chain(views(data@)),
            match built {
                Ok(chain) => reloaded(views(data@)) == Some(chain@),
                Err(violation) => first_fault(views(data@), violation.index as int, violation.fault),
            },
    {
        let chain = Blockchain { blocks: data };
        match chain.first_violation() {
            None => Ok(chain),
            Some(violation) => {
                assert(!in_order_at(chain@, violation.index as int));
                Err(violation)
            },
        }
    }

    /// Judges `block` against the tip of the chain without appending it.
    pub fn admission(&self, block: &Block) -> (answer: Admission)
        ensures
            answer == admission_of(self@, block@),
    {
        match self.get_last_block() {
            None => Admission::EmptyChain,
            Some(tip) => {
                if block.prev_block_hash != tip.hash {
                    Admission::PrevHashMismatch
                } else if !block.is_sealed() {
                    Admission::HashMismatch
                } else {
                    Admission::Accepted
                }
            },
        }
    }

    /// Appends `block` if the chain accepts it, and gives the chain's answer.
    /// A block that is not accepted leaves the chain as it was.
    ///
    /// The height of the block is not judged here. A valid chain stays valid
    /// under a block of the height after its tip's.
    pub fn submit_block(&mut self, block: Block) -> (answer: Admission)
        ensures
            answer == admission_of(old(self)@, block@),
            final(self)@ == appended(old(self)@, block@),
            valid_chain(old(self)@) && block@.height == old(self)@.len()
                ==> valid_chain(final(self)@),
    {
        let answer = self.admission(&block);
        if answer == Admission::Accepted {
            proof {
                if valid_chain(self@) && block@.height == self@.len() {
                    law_accepted_chain_stays_valid(self@, block@);
                }
            }
            self.blocks.push(block);
        }
        answer
    }

    /// Appends `block` if the chain accepts it, and says whether it did. An
    /// accepted block is the new tip and names the hash of the old one; a
    /// block that is not accepted leaves the chain as it was.
    pub fn add_block(&mut self, block: Block) -> (accepted: bool)
        ensures
            accepted == admits(old(self)@, block@),
            final(self)@ == appended(old(self)@, block@),
            accepted ==> final(self)@.last() == block@,
            accepted ==> final(self)@.last().prev_hash == old(self)@.last().hash,
            !accepted ==> final(self)@ == old(self)@,
            valid_chain(old(self)@) && block@.height == old(self)@.len()
                ==> valid_chain(final(self)@),
    {
        self.submit_block(block) == Admission::Accepted
    }

    /// The blocks of the chain, oldest first.
    pub fn get_blocks(&self) -> (blocks: &Vec<Block>)
        ensures
            views(blocks@) == self@,
    {
        &self.blocks
    }

    /// The number of blocks in the chain.
    pub fn len(&self) -> (len: usize)
        ensures
            len == self@.len(),
    {
        self.blocks.len()
    }

    /// The block at position `index`, or nothing if the chain is not that
    /// long.
    pub fn get_block(&self, index: usize) -> (found: Option<&Block>)
        ensures
            match found {
                Some(block) => index < self@.len() && block@ == self@[index as int],
                None => index >= self@.len(),
            },
    {
        if index < self.blocks.len() {
            Some(&self.blocks[index])
        } else {
            None
        }
    }

    /// The tip of the chain: its last block, or nothing if the chain is
    /// empty.
    pub fn get_last_block(&self) -> (tip: Option<&Block>)
        ensures
            match tip {
                Some(block) => self@.len() > 0 && block@ == self@.last(),
                None => self@.len() == 0,
            },
    {
        let len = self.blocks.len();
        if len == 0 {
            None
        } else {
            Some(&self.blocks[len - 1])
        }
    }

    /// Judges the block at position `i` against its predecessor.
    fn fault_at_index(&self, i: usize) -> (fault: Option<Fault>)
        requires
            i < self@.len(),
        ensures
            fault == fault_at(self@, i as int),
    {
        let block = &self.blocks[i];
        let linked = i == 0 || block.prev_block_hash == self.blocks[i - 1].hash;
        if !linked {
            Some(Fault::BrokenLink)
        } else if !block.is_sealed() {
            Some(Fault::BadHash)
        } else if block.height != i {
            Some(Fault::BadHeight)
        } else {
            None
        }
    }

    /// Walks the chain from its first block and stops at the first block
    /// with a fault.
    pub fn first_violation(&self) -> (found: Option<Violation>)
        ensures
            match found {
                None => valid_chain(self@),
                Some(violation) => first_fault(self@, violation.index as int, violation.fault),
            },
    {
        let mut i: usize = 0;
        while i < self.blocks.len()
            invariant
                i <= self@.len(),
                self@.len() == self.blocks.len(),
                forall|j: int| 0 <= j < i ==> in_order_at(self@, j),
            decreases self.blocks.len() - i,
        {
            match self.fault_at_index(i) {
                Some(fault) => {
                    return Some(Violation { index: i, fault });
                },
                None => {},
            }
            i = i + 1;
        }
        None
    }

    /// Checks every block of the chain: its link, its hash and its height.
    pub fn is_valid(&self) -> (valid: bool)
        ensures
            valid == valid_chain(self@),
    {
        match self.first_violation() {
            None => true,
            Some(violation) => {
                assert(!in_order_at(self@, violation.index as int));
                false
            },
        }
    }
}

} // verus!
