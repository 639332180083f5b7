//! The synchronisation protocol: the messages that peers exchange, and the
//! rule for sending one.

use vstd::prelude::*;

verus! {

/// The seconds that a starting node waits for peers to be discovered before
/// it asks them for their chain.
pub const DISCOVERY_WINDOW_SECS: u64 = 10;

/// A message of the synchronisation protocol. Blocks travel in it in their
/// serialised form.
#[derive(Debug, PartialEq, Eq)]
pub enum NetworkMessage {
    /// Announces a new block.
    NewBlock(String),
    /// Asks the peers for their chain.
    ChainRequest,
    /// Answers a `ChainRequest` with the blocks of a chain, oldest first.
    ChainResponse(Vec<String>),
}

/// Decides whether `message` goes out: it does when at least one peer is
/// known, and is held back when there is none to hear it.
pub fn broadcast_message(peers: usize, message: NetworkMessage) -> (sent: Option<NetworkMessage>)
    ensures
        sent == if peers == 0 {
            None
        } else {
            Some(message)
        },
{
    if peers == 0 {
        None
    } else {
        Some(message)
    }
}

/// The message with which a node greets the network once the discovery
/// window has passed: a request for the peers' chain, if there are peers.
pub fn startup_message(peers: usize) -> (sent: Option<NetworkMessage>)
    ensures
        sent == if peers == 0 {
            None
        } else {
            Some(NetworkMessage::ChainRequest)
        },
{
    broadcast_message(peers, NetworkMessage::ChainRequest)
}

} // verus!
