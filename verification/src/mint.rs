use vstd::prelude::*;
use crate::address::Address;

verus! {

/// The accounts a compressed NFT is minted over.
#[derive(Clone, Copy, Debug, PartialEq, Eq)]
pub struct MintV1 {
    pub tree_config: Address,
    pub leaf_owner: Address,
    pub leaf_delegate: Address,
    pub merkle_tree: Address,
    pub payer: Address,
    pub tree_creator_or_delegate: Address,
    pub log_wrapper: Address,
    pub compression_program: Address,
    pub system_program: Address,
}

} // verus!
