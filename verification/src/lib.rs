//! A hash-linked ledger of blocks and the rules by which a node keeps its
//! copy of the ledger in step with its peers.
//!
//! The functions here carry contracts that Verus proves. The contracts are
//! stated over mathematical views of the data: a block is seen as its four
//! fields, a chain as the sequence of its blocks. The few calls that leave the
//! library (the SHA-256 digest, the system clock) are marked as trusted where
//! they stand, each with what is taken on trust.
//!
//! The library performs no input or output. A host program reads commands
//! and messages, hands them over as plain values, and carries out what the
//! node decides.

pub mod block;
pub mod blockchain;
pub mod clock;
pub mod command;
pub mod digest;
pub mod encoding;
pub mod laws;
pub mod network;
pub mod node;
