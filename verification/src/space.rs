use vstd::prelude::*;
use vstd::arithmetic::power2::{pow2, lemma2_to64, lemma2_to64_rest, lemma_pow2_strictly_increases};
use vstd::bits::lemma_u64_shl_is_mul;

verus! {

/// Bytes of header in front of the nodes of a tree account.
pub const TREE_HEADER_BYTES: u64 = 8;

/// Bytes one node of the tree takes.
pub const NODE_BYTES: u64 = 32;

/// The deepest tree whose account size still fits in 64 bits.
pub const MAX_SIZED_DEPTH: u32 = 58;

/// Bytes to allocate for the account of a tree of depth `max_depth`:
/// the header, then one node for each of the `2^max_depth` leaves.
pub open spec fn tree_account_space(max_depth: u32) -> int {
    TREE_HEADER_BYTES + NODE_BYTES * pow2(max_depth as nat)
}

/// The size fits in 64 bits exactly for depths up to `MAX_SIZED_DEPTH`.
pub proof fn lemma_space_fits(max_depth: u32)
    ensures
        tree_account_space(max_depth) <= u64::MAX <==> max_depth <= MAX_SIZED_DEPTH,
        max_depth <= MAX_SIZED_DEPTH ==> pow2(max_depth as nat) <= 0x400000000000000,
{
    lemma2_to64();
    lemma2_to64_rest();
    if max_depth < 58 {
        lemma_pow2_strictly_increases(max_depth as nat, 58);
    } else if max_depth > 59 {
        lemma_pow2_strictly_increases(59, max_depth as nat);
    }
}

/// Computes the size of the account of a tree of depth `max_depth`, or
/// `None` where that size does not fit in 64 bits.
pub fn merkle_tree_space(max_depth: u32) -> (space: Option<u64>)
    ensures
        space.is_some() <==> tree_account_space(max_depth) <= u64::MAX,
        space.is_some() <==> max_depth <= MAX_SIZED_DEPTH,
        space matches Some(s) ==> s == tree_account_space(max_depth),
{
    proof {
        lemma_space_fits(max_depth);
    }
    if max_depth > MAX_SIZED_DEPTH {
        return None;
    }
    let depth: u64 = max_depth as u64;
    let leaves: u64 = 1u64 << depth;
    proof {
        lemma_u64_shl_is_mul(1u64, depth);
    }
    Some(TREE_HEADER_BYTES + NODE_BYTES * leaves)
}

} // verus!
