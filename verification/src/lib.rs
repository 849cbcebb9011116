//! Building blocks for creating a Merkle-tree-backed compressed NFT
//! collection on Solana: addresses, the two instructions that open a tree,
//! the size of the tree account, the signed transaction, and the errors the
//! steps can raise.

pub mod address;
pub mod error;
pub mod instruction;
pub mod mint;
pub mod programs;
pub mod space;
pub mod transaction;
pub mod tree;
