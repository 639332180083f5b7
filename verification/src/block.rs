//! The block: one content-addressed record of the ledger.

use crate::clock::unix_time_millis;
use crate::digest::{sha256, sha256_digest, DIGEST_BYTES};
use crate::encoding::{decimal_digits, hex_lower, to_decimal, to_hex};
use vstd::prelude::*;
use vstd::string::StrSliceExecFns;
use vstd::string::StringExecFns;
use vstd::utf8::encode_utf8;

verus! {

/// The length of a block hash: two hexadecimal digits for each digest byte.
pub const HASH_LEN: usize = 64;

/// A single block of the ledger.
///
/// `hash` is meant to be the digest of `timestamp` and `prev_block_hash`; a
/// block for which that holds is *sealed*. `height` is carried beside the
/// hashed fields and is not part of the digest.
#[derive(Debug, PartialEq, Eq)]
pub struct Block {
    /// When the block was created, in milliseconds since the Unix epoch.
    pub timestamp: u128,
    /// The hash of the block that this one extends.
    pub prev_block_hash: String,
    /// The hash of this block.
    pub hash: String,
    /// The position of the block in its chain; the genesis block has 0.
    pub height: usize,
}

/// A block as the ledger's rules see it: its four fields as plain values.
pub struct BlockView {
    pub timestamp: nat,
    pub prev_hash: Seq<char>,
    pub hash: Seq<char>,
    pub height: nat,
}

impl View for Block {
    type V = BlockView;

    open spec fn view(&self) -> BlockView {
        BlockView {
            timestamp: self.timestamp as nat,
            prev_hash: self.prev_block_hash@,
            hash: self.hash@,
            height: self.height as nat,
        }
    }
}

/// The predecessor hash of a genesis block: as many zeros as a hash has
/// digits.
pub open spec fn zero_hash() -> Seq<char> {
    Seq::new(HASH_LEN as nat, |i: int| '0')
}

/// The bytes that are hashed for a block: the decimal digits of its
/// timestamp, then its predecessor's hash as UTF-8 text.
pub open spec fn hash_preimage(timestamp: nat, prev_hash: Seq<char>) -> Seq<u8> {
    decimal_digits(timestamp) + encode_utf8(prev_hash)
}

/// The hash of a block with the given timestamp and predecessor hash: the
/// SHA-256 digest of its preimage, in lowercase hexadecimal.
pub open spec fn block_hash(timestamp: nat, prev_hash: Seq<char>) -> Seq<char> {
    hex_lower(sha256(hash_preimage(timestamp, prev_hash)))
}

impl BlockView {
    /// The block's hash is the digest of its timestamp and predecessor hash.
    pub open spec fn sealed(self) -> bool {
        self.hash == block_hash(self.timestamp, self.prev_hash)
    }

    /// The block is a genesis block: sealed, at height 0, with the zero hash
    /// for a predecessor.
    pub open spec fn is_genesis(self) -> bool {
        &&& self.sealed()
        &&& self.height == 0
        &&& self.prev_hash == zero_hash()
    }

    /// The block is sealed, extends a block of hash `prev_hash` and stands at
    /// `height`.
    pub open spec fn extends(self, prev_hash: Seq<char>, height: nat) -> bool {
        &&& self.sealed()
        &&& self.prev_hash == prev_hash
        &&& self.height == height
    }
}

impl Clone for Block {
    fn clone(&self) -> (copy: Block)
        ensures
            copy == *self,
    {
        Block {
            timestamp: self.timestamp,
            prev_block_hash: self.prev_block_hash.clone(),
            hash: self.hash.clone(),
            height: self.height,
        }
    }
}

/// The predecessor hash that marks a genesis block.
pub fn genesis_prev_hash() -> (zeros: String)
    ensures
        zeros@ == zero_hash(),
{
    let zeros: &'static str = "0000000000000000000000000000000000000000000000000000000000000000";
    proof {
        reveal_strlit("0000000000000000000000000000000000000000000000000000000000000000");
    }
    String::from_str(zeros)
}

impl Block {
    /// Creates a sealed block that extends the block of hash
    /// `prev_block_hash`, stamped with the current time. No block is made
    /// where the clock is set before the Unix epoch: such a clock tells no
    /// time that a block could carry.
    pub fn new_block(prev_block_hash: String, height: usize) -> (built: Option<Block>)
        ensures
            built matches Some(block) ==> {
                &&& block@.extends(prev_block_hash@, height as nat)
                &&& block@.hash.len() == HASH_LEN
            },
    {
        match unix_time_millis() {
            Some(timestamp) => Some(Block::with_timestamp(timestamp, prev_block_hash, height)),
            None => None,
        }
    }

    /// Creates the sealed block with the given timestamp, predecessor hash
    /// and height.
    pub fn with_timestamp(
        timestamp: u128,
        prev_block_hash: String,
        height: usize,
    ) -> (block: Block)
        ensures
            block@.timestamp == timestamp,
            block@.extends(prev_block_hash@, height as nat),
            block@.hash.len() == HASH_LEN,
    {
        let hash = Block::calculate_hash(timestamp, prev_block_hash.as_str());
        Block { timestamp, prev_block_hash, hash, height }
    }

    /// Creates a genesis block, the first block of a chain, stamped with the
    /// current time. No block is made where the clock is set before the Unix
    /// epoch.
    pub fn genesis_block() -> (built: Option<Block>)
        ensures
            built matches Some(block) ==> {
                &&& block@.is_genesis()
                &&& block@.hash.len() == HASH_LEN
            },
    {
        match unix_time_millis() {
            Some(timestamp) => Some(Block::genesis_at(timestamp)),
            None => None,
        }
    }

    /// Creates the genesis block with the given timestamp.
    pub fn genesis_at(timestamp: u128) -> (block: Block)
        ensures
            block@.timestamp == timestamp,
            block@.is_genesis(),
            block@.hash.len() == HASH_LEN,
    {
        Block::with_timestamp(timestamp, genesis_prev_hash(), 0)
    }

    /// Assembles the bytes that are hashed for a block.
    pub fn preimage(timestamp: u128, prev_block_hash: &str) -> (bytes: Vec<u8>)
        ensures
            bytes@ == hash_preimage(timestamp as nat, prev_block_hash@),
    {
        let mut bytes = to_decimal(timestamp);
        let mut text = prev_block_hash.as_bytes_vec();
        bytes.append(&mut text);
        bytes
    }

    /// Computes the hash of a block from its timestamp and predecessor hash.
    pub fn calculate_hash(timestamp: u128, prev_block_hash: &str) -> (hash: String)
        ensures
            hash@ == block_hash(timestamp as nat, prev_block_hash@),
            hash@.len() == HASH_LEN,
    {
        let bytes = Block::preimage(timestamp, prev_block_hash);
        let digest = sha256_digest(bytes.as_slice());
        to_hex(digest.as_slice())
    }

    /// Recomputes the hash of the block and compares it with the stored one.
    pub fn is_sealed(&self) -> (sealed: bool)
        ensures
            sealed == self@.sealed(),
    {
        let expected = Block::calculate_hash(self.timestamp, self.prev_block_hash.as_str());
        self.hash == expected
    }

    /// The hash of the block.
    pub fn get_hash(&self) -> (hash: String)
        ensures
            hash@ == self@.hash,
    {
        self.hash.clone()
    }

    /// The hash of the block that this one extends.
    pub fn get_prev_hash(&self) -> (prev_hash: String)
        ensures
            prev_hash@ == self@.prev_hash,
    {
        self.prev_block_hash.clone()
    }

    /// The position of the block in its chain.
    pub fn get_height(&self) -> (height: usize)
        ensures
            height == self@.height,
    {
        self.height
    }

    /// When the block was created, in milliseconds since the Unix epoch.
    pub fn get_timestamp(&self) -> (timestamp: u128)
        ensures
            timestamp == self@.timestamp,
    {
        self.timestamp
    }
}

} // verus!
