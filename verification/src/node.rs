//! The node: the single owner of the local chain, which decides what a local
//! command or a message from a peer does to it.
//!
//! The node performs no input or output. Each of its methods takes one event
//! as plain values and answers with the next state of the chain and with what
//! its host is to do: decode a payload, send blocks, report an outcome.

use crate::block::{Block, BlockView, HASH_LEN};
use crate::blockchain::{
    admission_of, appended, in_order_at, valid_chain, views, Admission, Blockchain,
};
use crate::clock::unix_time_millis;
use crate::network::NetworkMessage;
use vstd::prelude::*;

verus! {

/// What the node asks of its host after a message from a peer.
#[derive(Debug, PartialEq, Eq)]
pub enum Dispatch {
    /// The bytes that arrived were no message of the protocol. They are
    /// dropped.
    Dropped,
    /// A block was announced. Its payload is to be decoded and the outcome
    /// handed to `Node::deliver_block`.
    DecodeBlock(String),
    /// A peer asked for the chain. These blocks, the whole local chain, are
    /// to be serialised one by one and sent as a `ChainResponse`.
    SendChain(Vec<Block>),
    /// A chain snapshot arrived. The node never trades its chain for a
    /// peer's: the snapshot is let pass, and two nodes that began from
    /// different genesis blocks stay apart.
    Unhandled,
}

/// What became of an announced block.
#[derive(Clone, Copy, Debug, PartialEq, Eq, Structural)]
pub enum Delivery {
    /// The payload was not a block; nothing was done.
    Undecodable,
    /// The payload was a block, and the chain gave this answer to it.
    Judged(Admission),
}

/// The chain after an announced block was delivered: a payload that is no
/// block leaves it alone, a block is appended where the chain accepts it.
pub open spec fn delivered(chain: Seq<BlockView>, decoded: Option<BlockView>) -> Seq<BlockView> {
    match decoded {
        None => chain,
        Some(block) => appended(chain, block),
    }
}

/// The outcome of delivering an announced block to `chain`.
pub open spec fn delivery_of(chain: Seq<BlockView>, decoded: Option<BlockView>) -> Delivery {
    match decoded {
        None => Delivery::Undecodable,
        Some(block) => Delivery::Judged(admission_of(chain, block)),
    }
}

/// Why the node built no block when its operator asked for one.
#[derive(Clone, Copy, Debug, PartialEq, Eq, Structural)]
pub enum AppendError {
    /// The request came with no text.
    EmptyPayload,
    /// The chain has no tip to build on.
    EmptyChain,
    /// The tip stands at the greatest height that can be written down.
    HeightOverflow,
    /// The clock is set before the Unix epoch and tells no time to stamp the
    /// block with.
    ClockBeforeEpoch,
}

/// Why a request with `payload` for a new block on `chain` is refused before
/// the clock is read, if it is.
pub open spec fn refusal_of(chain: Seq<BlockView>, payload: Seq<char>) -> Option<AppendError> {
    if payload.len() == 0 {
        Some(AppendError::EmptyPayload)
    } else if chain.len() == 0 {
        Some(AppendError::EmptyChain)
    } else if chain.last().height >= usize::MAX {
        Some(AppendError::HeightOverflow)
    } else {
        None
    }
}

/// The view of an optional block.
pub open spec fn view_of(block: Option<Block>) -> Option<BlockView> {
    match block {
        None => None,
        Some(block) => Some(block@),
    }
}

/// A node and the chain it owns.
#[derive(Debug)]
pub struct Node {
    chain: Blockchain,
}

impl View for Node {
    type V = Seq<BlockView>;

    closed spec fn view(&self) -> Seq<BlockView> {
        self.chain@
    }
}

impl Node {
    /// A node that starts a chain of its own with a fresh genesis block. No
    /// node is made where the clock is set before the Unix epoch.
    pub fn new() -> (built: Option<Node>)
        ensures
            built matches Some(node) ==> {
                &&& node@.len() == 1
                &&& node@[0].is_genesis()
                &&& valid_chain(node@)
            },
    {
        match Blockchain::new() {
            Some(chain) => Some(Node { chain }),
            None => None,
        }
    }

    /// A node that carries on with `chain`.
    pub fn with_chain(chain: Blockchain) -> (node: Node)
        ensures
            node@ == chain@,
    {
        Node { chain }
    }

    /// The chain of the node.
    pub fn chain(&self) -> (chain: &Blockchain)
        ensures
            chain@ == self@,
    {
        &self.chain
    }

    /// The blocks of the local chain, oldest first.
    pub fn list_blocks(&self) -> (blocks: &Vec<Block>)
        ensures
            views(blocks@) == self@,
    {
        self.chain.get_blocks()
    }

    /// Takes the operator's request for a new block: builds a block on the
    /// tip, stamped with the current time, and appends it. The block is
    /// handed back so that it can be announced: it is committed here before
    /// any peer hears of it.
    ///
    /// `payload` is the text that came with the request. A block carries
    /// nothing of it, but a request without any is no request.
    ///
    /// The clock is read last. A request that is refused for its payload or
    /// for the chain is refused whatever the clock says; one that passes is
    /// refused only where the clock is set before the Unix epoch.
    pub fn append(&mut self, payload: &str) -> (built: Result<Block, AppendError>)
        ensures
            match built {
                Ok(block) => {
                    &&& refusal_of(old(self)@, payload@) is None
                    &&& block@.extends(old(self)@.last().hash, old(self)@.last().height + 1)
                    &&& block@.hash.len() == HASH_LEN
                    &&& final(self)@ == old(self)@.push(block@)
                },
                Err(AppendError::ClockBeforeEpoch) => {
                    &&& refusal_of(old(self)@, payload@) is None
                    &&& final(self)@ == old(self)@
                },
                Err(refusal) => {
                    &&& refusal_of(old(self)@, payload@) == Some(refusal)
                    &&& final(self)@ == old(self)@
                },
            },
            valid_chain(old(self)@) ==> valid_chain(final(self)@),
    {
        match self.refusal(payload) {
            Some(refusal) => Err(refusal),
            None => match unix_time_millis() {
                Some(timestamp) => Ok(self.extend_at(timestamp)),
                None => Err(AppendError::ClockBeforeEpoch),
            },
        }
    }

    /// Judges a request with `payload` for a new block before any clock is
    /// read.
    pub fn refusal(&self, payload: &str) -> (refusal: Option<AppendError>)
        ensures
            refusal == refusal_of(self@, payload@),
    {
        if payload.is_empty() {
            return Some(AppendError::EmptyPayload);
        }
        match self.chain.get_last_block() {
            None => Some(AppendError::EmptyChain),
            Some(tip) => if tip.height == usize::MAX {
                Some(AppendError::HeightOverflow)
            } else {
                None
            },
        }
    }

    /// Takes the operator's request for a new block at a given time: builds
    /// the block with that timestamp on the tip and appends it.
    pub fn append_at(
        &mut self,
        timestamp: u128,
        payload: &str,
    ) -> (built: Result<Block, AppendError>)
        ensures
            match built {
                Ok(block) => {
                    &&& refusal_of(old(self)@, payload@) is None
                    &&& block@.timestamp == timestamp
                    &&& block@.extends(old(self)@.last().hash, old(self)@.last().height + 1)
                    &&& block@.hash.len() == HASH_LEN
                    &&& final(self)@ == old(self)@.push(block@)
                },
                Err(refusal) => {
                    &&& refusal_of(old(self)@, payload@) == Some(refusal)
                    &&& final(self)@ == old(self)@
                },
            },
            valid_chain(old(self)@) ==> valid_chain(final(self)@),
    {
        match self.refusal(payload) {
            Some(refusal) => Err(refusal),
            None => Ok(self.extend_at(timestamp)),
        }
    }

    /// Builds the block with the given timestamp on the tip and appends it.
    fn extend_at(&mut self, timestamp: u128) -> (block: Block)
        requires
            old(self)@.len() > 0,
            old(self)@.last().height < usize::MAX,
        ensures
            block@.timestamp == timestamp,
            block@.extends(old(self)@.last().hash, old(self)@.last().height + 1),
            block@.hash.len() == HASH_LEN,
            final(self)@ == old(self)@.push(block@),
            valid_chain(old(self)@) ==> valid_chain(final(self)@),
    {
        let tip = self.chain.get_last_block().unwrap();
        let block = Block::with_timestamp(timestamp, tip.get_hash(), tip.height + 1);
        proof {
            if valid_chain(self@) {
                assert(in_order_at(self@, self@.len() - 1));
            }
        }
        self.chain.add_block(block.clone());
        block
    }

    /// Decides what a message from a peer asks for; `None` stands for bytes
    /// that could not be decoded as a message. The chain is not touched: an
    /// announced block reaches it through `deliver_block`, once decoded.
    pub fn dispatch(&self, message: Option<NetworkMessage>) -> (dispatch: Dispatch)
        ensures
            match message {
                None => dispatch is Dropped,
                Some(NetworkMessage::NewBlock(payload)) => {
                    &&& dispatch matches Dispatch::DecodeBlock(text)
                    &&& text@ == payload@
                },
                Some(NetworkMessage::ChainRequest) => {
                    &&& dispatch matches Dispatch::SendChain(blocks)
                    &&& views(blocks@) == self@
                },
                Some(NetworkMessage::ChainResponse(_)) => dispatch is Unhandled,
            },
    {
        match message {
            None => Dispatch::Dropped,
            Some(NetworkMessage::NewBlock(payload)) => Dispatch::DecodeBlock(payload),
            Some(NetworkMessage::ChainRequest) => Dispatch::SendChain(self.snapshot()),
            Some(NetworkMessage::ChainResponse(_)) => Dispatch::Unhandled,
        }
    }

    /// A copy of the local chain's blocks, oldest first.
    pub fn snapshot(&self) -> (blocks: Vec<Block>)
        ensures
            views(blocks@) == self@,
    {
        let source = self.chain.get_blocks();
        let mut blocks: Vec<Block> = Vec::new();
        let mut i: usize = 0;
        while i < source.len()
            invariant
                i <= source.len(),
                blocks@ =~= source@.take(i as int),
            decreases source.len() - i,
        {
            blocks.push(source[i].clone());
            i = i + 1;
        }
        blocks
    }

    /// Takes an announced block once its payload has been decoded; `None`
    /// stands for a payload that is no block. A block that the chain accepts
    /// is appended; anything else is dropped and leaves the chain as it was.
    pub fn deliver_block(&mut self, decoded: Option<Block>) -> (delivery: Delivery)
        ensures
            delivery == delivery_of(old(self)@, view_of(decoded)),
            final(self)@ == delivered(old(self)@, view_of(decoded)),
    {
        match decoded {
            None => Delivery::Undecodable,
            Some(block) => Delivery::Judged(self.chain.submit_block(block)),
        }
    }
}

} // verus!
