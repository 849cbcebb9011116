use vstd::prelude::*;
use vstd::bytes::{
    lemma_auto_spec_u32_to_from_le_bytes, lemma_auto_spec_u64_to_from_le_bytes,
    spec_u32_to_le_bytes, spec_u64_to_le_bytes,
};
use mpl_bubblegum::instructions::CreateTreeConfigBuilder;
use solana_program::pubkey::Pubkey;
use solana_program::system_instruction;
use crate::address::Address;
use crate::programs::{bubblegum_program, system_program};

verus! {

/// One account an instruction touches, and how.
#[derive(Clone, Copy, Debug, PartialEq, Eq)]
pub struct AccountMeta {
    pub pubkey: Address,
    pub is_signer: bool,
    pub is_writable: bool,
}

/// An instruction for a program on the ledger.
#[derive(Clone, Debug, PartialEq, Eq)]
pub struct Instruction {
    pub program_id: Address,
    pub accounts: Vec<AccountMeta>,
    pub data: Vec<u8>,
}

/// The accounts a tree configuration is created over.
#[derive(Clone, Copy, Debug, PartialEq, Eq)]
pub struct TreeConfigAccounts {
    pub tree_config: Address,
    pub merkle_tree: Address,
    pub payer: Address,
    pub tree_creator: Address,
    pub log_wrapper: Address,
    pub compression_program: Address,
    pub system_program: Address,
}

/// An account that may be written to.
pub open spec fn writable(pubkey: Address, is_signer: bool) -> AccountMeta {
    AccountMeta { pubkey, is_signer, is_writable: true }
}

/// An account that is only read.
pub open spec fn readonly(pubkey: Address, is_signer: bool) -> AccountMeta {
    AccountMeta { pubkey, is_signer, is_writable: false }
}

/// The payload of the system program's account creation: its index among
/// the system instructions, then the balance, the size and the owner.
pub open spec fn create_account_data(lamports: u64, space: u64, owner: Seq<u8>) -> Seq<u8> {
    seq![0u8, 0u8, 0u8, 0u8] + spec_u64_to_le_bytes(lamports) + spec_u64_to_le_bytes(space)
        + owner
}

/// The instruction that creates an account: the payer funds it and signs,
/// the new account signs, both are written to.
pub open spec fn is_create_account(
    ix: Instruction,
    payer: Address,
    new_account: Address,
    lamports: u64,
    space: u64,
    owner: Address,
) -> bool {
    &&& ix.program_id == system_program()
    &&& ix.accounts@ == seq![writable(payer, true), writable(new_account, true)]
    &&& ix.data@ == create_account_data(lamports, space, owner@)
}

/// The eight bytes that select the tree configuration among the Bubblegum
/// instructions.
pub open spec fn tree_config_discriminator() -> Seq<u8> {
    seq![165u8, 83u8, 136u8, 142u8, 89u8, 202u8, 47u8, 220u8]
}

/// The payload of the tree configuration: the discriminator, the depth, the
/// buffer size, and one zero byte for the visibility that is left unset.
pub open spec fn tree_config_data(max_depth: u32, max_buffer_size: u32) -> Seq<u8> {
    tree_config_discriminator() + spec_u32_to_le_bytes(max_depth) + spec_u32_to_le_bytes(
        max_buffer_size,
    ) + seq![0u8]
}

/// The seven accounts of the tree configuration, in the order the program
/// reads them.
pub open spec fn tree_config_metas(accounts: TreeConfigAccounts) -> Seq<AccountMeta> {
    seq![
        writable(accounts.tree_config, false),
        writable(accounts.merkle_tree, false),
        writable(accounts.payer, true),
        readonly(accounts.tree_creator, true),
        readonly(accounts.log_wrapper, false),
        readonly(accounts.compression_program, false),
        readonly(accounts.system_program, false),
    ]
}

/// The instruction that configures a tree.
pub open spec fn is_create_tree_config(
    ix: Instruction,
    accounts: TreeConfigAccounts,
    max_depth: u32,
    max_buffer_size: u32,
) -> bool {
    &&& ix.program_id == bubblegum_program()
    &&& ix.accounts@ == tree_config_metas(accounts)
    &&& ix.data@ == tree_config_data(max_depth, max_buffer_size)
}

/// Bytes in the payload of an account creation.
pub const CREATE_ACCOUNT_DATA_BYTES: usize = 52;

/// Bytes in the payload of a tree configuration.
pub const TREE_CONFIG_DATA_BYTES: usize = 17;

/// The two payloads have fixed lengths: four bytes of index, two numbers
/// of eight bytes and an address; eight bytes of discriminator, two
/// numbers of four bytes and one byte of visibility.
pub proof fn lemma_payload_lengths(
    lamports: u64,
    space: u64,
    owner: Address,
    max_depth: u32,
    max_buffer_size: u32,
)
    ensures
        create_account_data(lamports, space, owner@).len() == CREATE_ACCOUNT_DATA_BYTES,
        tree_config_data(max_depth, max_buffer_size).len() == TREE_CONFIG_DATA_BYTES,
{
    lemma_auto_spec_u32_to_from_le_bytes();
    lemma_auto_spec_u64_to_from_le_bytes();
}

/// Calls `solana_program::system_instruction::create_account`. The contract
/// states the instruction it builds: the system program, the two signing
/// writable accounts, and the serialised `CreateAccount` variant.
#[verifier::external_body]
fn system_create_account(
    payer: &Address,
    new_account: &Address,
    lamports: u64,
    space: u64,
    owner: &Address,
) -> (ix: Instruction)
    ensures
        is_create_account(ix, *payer, *new_account, lamports, space, *owner),
{
    let from = Pubkey::new_from_array(payer.bytes);
    let to = Pubkey::new_from_array(new_account.bytes);
    let program = Pubkey::new_from_array(owner.bytes);
    let made = system_instruction::create_account(&from, &to, lamports, space, &program);
    Instruction {
        program_id: Address { bytes: made.program_id.to_bytes() },
        accounts: made.accounts.iter().map(|m| AccountMeta {
            pubkey: Address { bytes: m.pubkey.to_bytes() },
            is_signer: m.is_signer,
            is_writable: m.is_writable,
        }).collect(),
        data: made.data,
    }
}

/// Calls `mpl_bubblegum::instructions::CreateTreeConfigBuilder` with every
/// account, the depth and the buffer size set and the visibility left
/// unset. The contract states the instruction it builds: the Bubblegum
/// program, the seven accounts, and the serialised arguments behind the
/// discriminator.
#[verifier::external_body]
fn bubblegum_create_tree_config(
    accounts: &TreeConfigAccounts,
    max_depth: u32,
    max_buffer_size: u32,
) -> (ix: Instruction)
    ensures
        is_create_tree_config(ix, *accounts, max_depth, max_buffer_size),
{
    let key = |a: &Address| Pubkey::new_from_array(a.bytes);
    let made = CreateTreeConfigBuilder::new()
        .merkle_tree(key(&accounts.merkle_tree)).tree_config(key(&accounts.tree_config))
        .payer(key(&accounts.payer)).tree_creator(key(&accounts.tree_creator))
        .max_depth(max_depth).max_buffer_size(max_buffer_size)
        .log_wrapper(key(&accounts.log_wrapper))
        .compression_program(key(&accounts.compression_program))
        .system_program(key(&accounts.system_program)).instruction();
    Instruction {
        program_id: Address { bytes: made.program_id.to_bytes() },
        accounts: made.accounts.iter().map(|m| AccountMeta {
            pubkey: Address { bytes: m.pubkey.to_bytes() }, is_signer: m.is_signer, is_writable: m.is_writable,
        }).collect(),
        data: made.data,
    }
}

/// Builds the instruction by which `payer` creates `new_account` with
/// `lamports` of balance and `space` bytes, owned by `program_id`.
pub fn create_account_instruction(
    payer: &Address,
    new_account: &Address,
    lamports: u64,
    space: u64,
    program_id: &Address,
) -> (ix: Instruction)
    ensures
        is_create_account(ix, *payer, *new_account, lamports, space, *program_id),
{
    system_create_account(payer, new_account, lamports, space, program_id)
}

/// Builds the instruction that configures a tree of the given depth and
/// buffer size over `accounts`.
pub fn create_tree_config_instruction(
    accounts: &TreeConfigAccounts,
    max_depth: u32,
    max_buffer_size: u32,
) -> (ix: Instruction)
    ensures
        is_create_tree_config(ix, *accounts, max_depth, max_buffer_size),
{
    bubblegum_create_tree_config(accounts, max_depth, max_buffer_size)
}

} // verus!
