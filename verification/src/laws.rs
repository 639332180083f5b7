//! What holds of every chain, proved over the views that the contracts of the
//! chain and of the node are stated in.

use crate::block::{block_hash, hash_preimage, BlockView};
use crate::digest::sha256;
use crate::encoding::{
    decimal_digits, lemma_decimal_digits_tell_numbers_apart, lemma_hex_lower_tells_bytes_apart,
};
use vstd::utf8::encode_utf8;
use crate::blockchain::{
    admits, appended, fault_at, first_fault, in_order_at, reloaded, valid_chain, Admission, Fault,
};
use crate::node::{delivered, delivery_of, Delivery};
use vstd::prelude::*;

verus! {

/// The hash of the tip occurs nowhere else in the chain: no earlier block
/// has it, and the first block does not name it as its predecessor's.
pub open spec fn tip_is_fresh(chain: Seq<BlockView>) -> bool {
    &&& chain.len() > 0
    &&& chain[0].prev_hash != chain.last().hash
    &&& forall|j: int| 0 <= j < chain.len() - 1 ==> (#[trigger] chain[j]).hash != chain.last().hash
}

/// An accepted block becomes the tip, names the hash of the tip before it,
/// and leaves every earlier block in its place.
pub proof fn law_accepted_block_is_tip(chain: Seq<BlockView>, block: BlockView)
    requires
        admits(chain, block),
    ensures
        appended(chain, block).len() == chain.len() + 1,
        appended(chain, block).last() == block,
        appended(chain, block).last().prev_hash == chain.last().hash,
        appended(chain, block).drop_last() == chain,
{
}

/// A block that is not accepted leaves the chain unchanged.
pub proof fn law_rejected_block_changes_nothing(chain: Seq<BlockView>, block: BlockView)
    requires
        !admits(chain, block),
    ensures
        appended(chain, block) == chain,
{
}

/// A valid chain that accepts a block at the height after its tip is valid
/// with that block.
pub proof fn law_accepted_chain_stays_valid(chain: Seq<BlockView>, block: BlockView)
    requires
        valid_chain(chain),
        admits(chain, block),
        block.height == chain.len(),
    ensures
        valid_chain(appended(chain, block)),
{
    let longer = chain.push(block);
    assert forall|i: int| 0 <= i < longer.len() implies in_order_at(longer, i) by {
        if i < chain.len() {
            assert(in_order_at(chain, i));
            assert(longer[i] == chain[i]);
            if i > 0 {
                assert(longer[i - 1] == chain[i - 1]);
            }
        }
    }
}

/// `block`, delivered to `chain`, is turned away for not naming the hash of
/// the tip, and the chain stays as it was.
pub open spec fn turned_away(chain: Seq<BlockView>, block: BlockView) -> bool {
    &&& delivery_of(chain, Some(block)) == Delivery::Judged(Admission::PrevHashMismatch)
    &&& delivered(chain, Some(block)) == chain
}

/// Delivering again a block that the chain already holds changes nothing.
///
/// One delivery is left out: that of a sealed block which names the hash of
/// the tip, and so fits a second time. Among the blocks of a valid chain it
/// is found only where the hash that the block names, its predecessor's, is
/// the very hash of the tip.
pub proof fn law_redelivery_changes_nothing(chain: Seq<BlockView>, i: int)
    requires
        0 <= i < chain.len(),
        chain[i].prev_hash != chain.last().hash || !chain[i].sealed(),
    ensures
        delivered(chain, Some(chain[i])) == chain,
        delivery_of(chain, Some(chain[i])) != Delivery::Judged(Admission::Accepted),
{
}

/// Where the hash of the tip is fresh, no block of a valid chain fits a
/// second time: each of them, delivered again, names the hash of its own
/// predecessor, not that of the tip, and is turned away.
pub proof fn law_fresh_tip_admits_no_redelivery(chain: Seq<BlockView>)
    requires
        valid_chain(chain),
        tip_is_fresh(chain),
    ensures
        forall|i: int| 0 <= i < chain.len() ==> turned_away(chain, #[trigger] chain[i]),
{
    assert forall|i: int| 0 <= i < chain.len() implies turned_away(chain, #[trigger] chain[i]) by {
        assert(in_order_at(chain, i));
        if i > 0 {
            assert(chain[i - 1].hash != chain.last().hash);
        }
    }
}

/// A stored block whose timestamp or predecessor hash is changed, while its
/// hash and height are kept, is the first fault of the chain. Behind another
/// block, a changed predecessor hash breaks the link; a changed timestamp, and
/// any change to the first block, breaks the seal.
///
/// One forgery escapes every check: a change under which the block's digest
/// is the same, to the timestamp alone or to the first block. The law leaves
/// it out.
pub proof fn law_tampering_is_found(chain: Seq<BlockView>, i: int, forged: BlockView)
    requires
        valid_chain(chain),
        0 <= i < chain.len(),
        forged.hash == chain[i].hash,
        forged.height == chain[i].height,
        forged.timestamp != chain[i].timestamp || forged.prev_hash != chain[i].prev_hash,
        (i > 0 && forged.prev_hash != chain[i].prev_hash) || block_hash(
            forged.timestamp,
            forged.prev_hash,
        ) != forged.hash,
    ensures
        !valid_chain(chain.update(i, forged)),
        first_fault(
            chain.update(i, forged),
            i,
            if i > 0 && forged.prev_hash != chain[i].prev_hash {
                Fault::BrokenLink
            } else {
                Fault::BadHash
            },
        ),
{
    let tampered = chain.update(i, forged);
    assert(in_order_at(chain, i));
    assert forall|j: int| 0 <= j < i implies in_order_at(tampered, j) by {
        assert(in_order_at(chain, j));
    }
    if i > 0 {
        assert(tampered[i - 1] == chain[i - 1]);
    }
    assert(!in_order_at(tampered, i));
}

/// In a valid chain, every block is sealed and stands at the height of its
/// position, and every block but the first names the hash of the block before
/// it.
pub proof fn law_valid_chain_is_linked_sealed_and_counted(chain: Seq<BlockView>, i: int)
    requires
        valid_chain(chain),
        0 <= i < chain.len(),
    ensures
        chain[i].sealed(),
        chain[i].height == i,
        i > 0 ==> chain[i].prev_hash == chain[i - 1].hash,
        fault_at(chain, i) is None,
{
    assert(in_order_at(chain, i));
}

/// A block has a fault exactly when it is not in order.
pub proof fn law_fault_means_out_of_order(chain: Seq<BlockView>, i: int)
    ensures
        fault_at(chain, i) is None <==> in_order_at(chain, i),
{
}

/// A chain has at most one first fault.
pub proof fn law_first_fault_is_unique(
    chain: Seq<BlockView>,
    i: int,
    fault: Fault,
    j: int,
    other: Fault,
)
    requires
        first_fault(chain, i, fault),
        first_fault(chain, j, other),
    ensures
        i == j,
        fault == other,
{
    assert(!in_order_at(chain, i));
    assert(!in_order_at(chain, j));
}

/// A chain with a first fault is not valid.
pub proof fn law_faulty_chain_is_invalid(chain: Seq<BlockView>, i: int, fault: Fault)
    requires
        first_fault(chain, i, fault),
    ensures
        !valid_chain(chain),
{
    assert(!in_order_at(chain, i));
}

/// A chain with a block out of order at position `k` has a first fault, at
/// `k` or before it.
proof fn lemma_first_fault_before(chain: Seq<BlockView>, k: int)
    requires
        0 <= k < chain.len(),
        !in_order_at(chain, k),
    ensures
        exists|i: int, fault: Fault| first_fault(chain, i, fault),
    decreases k,
{
    if forall|j: int| 0 <= j < k ==> in_order_at(chain, j) {
        assert(first_fault(chain, k, fault_at(chain, k)->0));
    } else {
        let j = choose|j: int| 0 <= j < k && !in_order_at(chain, j);
        lemma_first_fault_before(chain, j);
    }
}

/// A chain that is not valid has a first fault.
pub proof fn law_invalid_chain_has_first_fault(chain: Seq<BlockView>)
    requires
        !valid_chain(chain),
    ensures
        exists|i: int, fault: Fault| first_fault(chain, i, fault),
{
    let k = choose|k: int| 0 <= k < chain.len() && !in_order_at(chain, k);
    lemma_first_fault_before(chain, k);
}

/// Two timestamps give two preimages, and so two hashes, to blocks that
/// name the same predecessor.
///
/// One pair of timestamps is left out: that on whose preimages the digest
/// collides.
pub proof fn law_timestamps_tell_hashes_apart(first: nat, second: nat, prev_hash: Seq<char>)
    requires
        first != second,
        sha256(hash_preimage(first, prev_hash)) != sha256(hash_preimage(second, prev_hash)),
    ensures
        hash_preimage(first, prev_hash) != hash_preimage(second, prev_hash),
        block_hash(first, prev_hash) != block_hash(second, prev_hash),
{
    if block_hash(first, prev_hash) == block_hash(second, prev_hash) {
        lemma_hex_lower_tells_bytes_apart(
            sha256(hash_preimage(first, prev_hash)),
            sha256(hash_preimage(second, prev_hash)),
        );
    }
}

/// Two timestamps give two preimages to blocks that name the same
/// predecessor, collision or none: the digits of the timestamp stand in
/// front and tell them apart.
pub proof fn law_timestamps_tell_preimages_apart(first: nat, second: nat, prev_hash: Seq<char>)
    requires
        first != second,
    ensures
        hash_preimage(first, prev_hash) != hash_preimage(second, prev_hash),
{
    let a = decimal_digits(first);
    let b = decimal_digits(second);
    let tail = encode_utf8(prev_hash);
    if a + tail == b + tail {
        assert((a + tail).len() == a.len() + tail.len());
        assert((b + tail).len() == b.len() + tail.len());
        assert forall|i: int| 0 <= i < a.len() implies a[i] == b[i] by {
            assert((a + tail)[i] == a[i]);
            assert((b + tail)[i] == b[i]);
        }
        assert(a =~= b);
        lemma_decimal_digits_tell_numbers_apart(first, second);
    }
}

/// Two genesis blocks made at different times have different hashes, and a
/// chain that has the one for its tip turns away a block that names the
/// other.
///
/// One pair of blocks is left out: that on whose preimages the digest
/// collides.
pub proof fn law_genesis_blocks_of_different_times_differ(
    first: BlockView,
    second: BlockView,
    block: BlockView,
)
    requires
        first.is_genesis(),
        second.is_genesis(),
        first.timestamp != second.timestamp,
        sha256(hash_preimage(first.timestamp, first.prev_hash)) != sha256(
            hash_preimage(second.timestamp, second.prev_hash),
        ),
        block.prev_hash == first.hash,
    ensures
        first.hash != second.hash,
        !admits(seq![second], block),
        appended(seq![second], block) == seq![second],
{
    law_timestamps_tell_hashes_apart(first.timestamp, second.timestamp, first.prev_hash);
}

/// The blocks of a valid chain, handed back as they are, are taken as the
/// same chain again.
pub proof fn law_valid_chain_reloads(chain: Seq<BlockView>)
    requires
        valid_chain(chain),
    ensures
        reloaded(chain) == Some(chain),
        valid_chain(reloaded(chain)->0),
{
}

/// A chain only grows at its end: whatever block asks to be appended, the
/// blocks that were there stay where they were.
pub proof fn law_chain_only_grows(chain: Seq<BlockView>, block: BlockView)
    ensures
        chain.is_prefix_of(appended(chain, block)),
        chain.len() <= appended(chain, block).len() <= chain.len() + 1,
{
}

} // verus!
