use vstd::prelude::*;
use vstd::string::StringExecFns;
use solana_sdk::signer::keypair::Keypair;
use solana_sdk::transaction::Transaction;
use crate::address::{
    find_program_address, parse_pubkey, program_address, pubkey_error_of, pubkey_text_decoded,
    Address,
};
use crate::error::BubblegumError;
use crate::instruction::{
    create_account_data, create_account_instruction, create_tree_config_instruction,
    is_create_account, is_create_tree_config, lemma_payload_lengths, tree_config_data,
    Instruction, TreeConfigAccounts,
};
use crate::programs::{
    bubblegum_program, bubblegum_program_id, compression_program, compression_program_id,
    log_wrapper_id, log_wrapper_program, system_program, system_program_id,
};
use crate::space::{merkle_tree_space, tree_account_space, MAX_SIZED_DEPTH};
use crate::transaction::{
    built_as, call_of, construct_transaction, generate_keypair, key_is_asked, keypair_address,
    keypair_key, message_of, mismatch_text, not_enough_text, only_payer_signs,
    single_signer_result, transaction_view, CallView, TransactionView,
};

verus! {

/// Everything that is settled about a new tree before the ledger is asked
/// for anything: its accounts, its shape, and the size of its account.
#[derive(Clone, Copy, Debug, PartialEq, Eq)]
pub struct TreePlan {
    pub accounts: TreeConfigAccounts,
    pub max_depth: u32,
    pub max_buffer_size: u32,
    pub space: u64,
}

/// The two instructions that open a tree, in the order they must run.
#[derive(Clone, Debug, PartialEq, Eq)]
pub struct TreeInstructions {
    pub create_account: Instruction,
    pub create_tree_config: Instruction,
}

/// The message reported where no configuration address can be derived.
pub open spec fn no_bump_text() -> Seq<char> {
    "Unable to find a viable program address bump seed"@
}

/// The error reported where no configuration address can be derived.
pub open spec fn is_no_bump_error(error: BubblegumError) -> bool {
    error matches BubblegumError::PubkeyError(message) && message@ == no_bump_text()
}

/// The message reported for a tree too deep for its account to be sized.
pub open spec fn oversized_text() -> Seq<char> {
    "Merkle tree account size does not fit in 64 bits"@
}

/// The error reported for a tree too deep for its account to be sized.
pub open spec fn is_oversized_error(error: BubblegumError) -> bool {
    error matches BubblegumError::TransactionError(message) && message@ == oversized_text()
}

/// The plan for a tree at `merkle_tree`, given the payer, the creator and
/// the configuration address already as bytes.
pub open spec fn is_plan(
    plan: TreePlan,
    payer: Seq<u8>,
    tree_creator: Seq<u8>,
    merkle_tree: Address,
    tree_config: Seq<u8>,
    max_depth: u32,
    max_buffer_size: u32,
) -> bool {
    &&& plan.accounts.payer@ == payer
    &&& plan.accounts.tree_creator@ == tree_creator
    &&& plan.accounts.merkle_tree == merkle_tree
    &&& plan.accounts.tree_config@ == tree_config
    &&& plan.accounts.log_wrapper == log_wrapper_program()
    &&& plan.accounts.compression_program == compression_program()
    &&& plan.accounts.system_program == system_program()
    &&& plan.max_depth == max_depth
    &&& plan.max_buffer_size == max_buffer_size
    &&& plan.space == tree_account_space(max_depth)
}

/// What planning yields: the first key that does not parse decides the
/// error, the payer's before the creator's; then a tree without a
/// configuration address is refused, then one too deep to be sized;
/// otherwise the plan is owed.
pub open spec fn plan_outcome(
    payer_text: Seq<char>,
    creator_text: Seq<char>,
    merkle_tree: Address,
    max_depth: u32,
    max_buffer_size: u32,
    planned: Result<TreePlan, BubblegumError>,
) -> bool {
    match pubkey_text_decoded(payer_text) {
        Err(failure) => planned matches Err(error) && pubkey_error_of(failure, error),
        Ok(payer) => match pubkey_text_decoded(creator_text) {
            Err(failure) => planned matches Err(error) && pubkey_error_of(failure, error),
            Ok(tree_creator) => match program_address(merkle_tree@, bubblegum_program()@) {
                None => planned matches Err(error) && is_no_bump_error(error),
                Some((tree_config, _)) => if max_depth > MAX_SIZED_DEPTH {
                    planned matches Err(error) && is_oversized_error(error)
                } else {
                    planned matches Ok(plan) && is_plan(
                        plan,
                        payer,
                        tree_creator,
                        merkle_tree,
                        tree_config,
                        max_depth,
                        max_buffer_size,
                    )
                },
            },
        },
    }
}

/// Derives the address of the configuration account of the tree at
/// `merkle_tree`: the address the Bubblegum program owns under the tree's
/// own address as the seed.
pub fn tree_config_address(merkle_tree: &Address) -> (derived: Option<Address>)
    ensures
        match program_address(merkle_tree@, bubblegum_program()@) {
            Some((tree_config, _)) => derived matches Some(address) && address@ == tree_config,
            None => derived.is_none(),
        },
{
    let program = bubblegum_program_id();
    match find_program_address(merkle_tree.bytes.as_slice(), &program) {
        Some((address, _)) => Some(address),
        None => None,
    }
}

/// Plans a tree at `merkle_tree` for the payer and the creator given as
/// Base58 text.
pub fn plan_tree(
    payer_pubkey: &str,
    tree_creator_pubkey: &str,
    merkle_tree: &Address,
    max_depth: u32,
    max_buffer_size: u32,
) -> (planned: Result<TreePlan, BubblegumError>)
    ensures
        plan_outcome(
            payer_pubkey@,
            tree_creator_pubkey@,
            *merkle_tree,
            max_depth,
            max_buffer_size,
            planned,
        ),
{
    let payer = match parse_pubkey(payer_pubkey) {
        Ok(address) => address,
        Err(error) => {
            return Err(error);
        },
    };
    let tree_creator = match parse_pubkey(tree_creator_pubkey) {
        Ok(address) => address,
        Err(error) => {
            return Err(error);
        },
    };
    let tree_config = match tree_config_address(merkle_tree) {
        Some(address) => address,
        None => {
            return Err(
                BubblegumError::PubkeyError(
                    String::from_str("Unable to find a viable program address bump seed"),
                ),
            );
        },
    };
    let space = match merkle_tree_space(max_depth) {
        Some(space) => space,
        None => {
            return Err(
                BubblegumError::TransactionError(
                    String::from_str("Merkle tree account size does not fit in 64 bits"),
                ),
            );
        },
    };
    let accounts = TreeConfigAccounts {
        tree_config,
        merkle_tree: *merkle_tree,
        payer,
        tree_creator,
        log_wrapper: log_wrapper_id(),
        compression_program: compression_program_id(),
        system_program: system_program_id(),
    };
    Ok(TreePlan { accounts, max_depth, max_buffer_size, space })
}

/// The two instructions of a plan: the payer creates the tree's account,
/// exempt from rent and owned by the Bubblegum program, and the tree is
/// configured over the plan's accounts.
pub open spec fn instructions_of(
    plan: TreePlan,
    rent_exempt_balance: u64,
    instructions: TreeInstructions,
) -> bool {
    &&& is_create_account(
        instructions.create_account,
        plan.accounts.payer,
        plan.accounts.merkle_tree,
        rent_exempt_balance,
        plan.space,
        bubblegum_program(),
    )
    &&& is_create_tree_config(
        instructions.create_tree_config,
        plan.accounts,
        plan.max_depth,
        plan.max_buffer_size,
    )
}

/// Builds the two instructions of `plan`, the account funded with
/// `rent_exempt_balance`.
pub fn tree_instructions(plan: &TreePlan, rent_exempt_balance: u64) -> (instructions:
    TreeInstructions)
    ensures
        instructions_of(*plan, rent_exempt_balance, instructions),
{
    let owner = bubblegum_program_id();
    let create_account = create_account_instruction(
        &plan.accounts.payer,
        &plan.accounts.merkle_tree,
        rent_exempt_balance,
        plan.space,
        &owner,
    );
    let create_tree_config = create_tree_config_instruction(
        &plan.accounts,
        plan.max_depth,
        plan.max_buffer_size,
    );
    TreeInstructions { create_account, create_tree_config }
}

/// The transaction that opens a tree, as plain values: the payer creates
/// the tree's account with the rent-exempt balance and the size of the
/// tree, owned by the Bubblegum program; then the tree is configured over
/// its seven accounts; the payer pays the fee and is the one signature.
pub open spec fn tree_message(
    payer: Seq<u8>,
    tree_creator: Seq<u8>,
    merkle_tree: Seq<u8>,
    tree_config: Seq<u8>,
    max_depth: u32,
    max_buffer_size: u32,
    rent_exempt_balance: u64,
    recent_blockhash: Seq<u8>,
) -> TransactionView {
    TransactionView {
        fee_payer: payer,
        recent_blockhash,
        calls: seq![
            CallView {
                program_id: system_program()@,
                accounts: seq![payer, merkle_tree],
                data: create_account_data(
                    rent_exempt_balance,
                    tree_account_space(max_depth) as u64,
                    bubblegum_program()@,
                ),
            },
            CallView {
                program_id: bubblegum_program()@,
                accounts: seq![
                    tree_config,
                    merkle_tree,
                    payer,
                    tree_creator,
                    log_wrapper_program()@,
                    compression_program()@,
                    system_program()@,
                ],
                data: tree_config_data(max_depth, max_buffer_size),
            },
        ],
        signatures: 1,
    }
}

/// What signing the tree's transaction with the key `signer_key` comes to,
/// once the plan stands. The payer, the tree and the creator all have to
/// sign, so the transaction is owed exactly where the three and the signer
/// are one key. A signer that is one of them but not all is told that
/// signatures are wanting; any other signer is a mismatch.
pub open spec fn tree_signing_result(
    payer: Seq<u8>,
    tree_creator: Seq<u8>,
    merkle_tree: Seq<u8>,
    tree_config: Seq<u8>,
    signer_key: Seq<u8>,
    max_depth: u32,
    max_buffer_size: u32,
    rent_exempt_balance: u64,
    recent_blockhash: Seq<u8>,
) -> Result<TransactionView, Seq<char>> {
    if signer_key == payer && merkle_tree == payer && tree_creator == payer {
        Ok(
            tree_message(
                payer,
                tree_creator,
                merkle_tree,
                tree_config,
                max_depth,
                max_buffer_size,
                rent_exempt_balance,
                recent_blockhash,
            ),
        )
    } else if signer_key == payer || signer_key == merkle_tree || signer_key == tree_creator {
        Err(not_enough_text())
    } else {
        Err(mismatch_text())
    }
}

/// What creating the tree at `merkle_tree` with the key `signer_key`
/// yields: the errors of planning, each on the inputs planning refuses;
/// past those, what signing comes to.
pub open spec fn creation_outcome(
    payer_text: Seq<char>,
    creator_text: Seq<char>,
    merkle_tree: Address,
    signer_key: Seq<u8>,
    max_depth: u32,
    max_buffer_size: u32,
    rent_exempt_balance: u64,
    recent_blockhash: Seq<u8>,
    created: Result<Transaction, BubblegumError>,
) -> bool {
    match pubkey_text_decoded(payer_text) {
        Err(failure) => created matches Err(error) && pubkey_error_of(failure, error),
        Ok(payer) => match pubkey_text_decoded(creator_text) {
            Err(failure) => created matches Err(error) && pubkey_error_of(failure, error),
            Ok(tree_creator) => match program_address(merkle_tree@, bubblegum_program()@) {
                None => created matches Err(error) && is_no_bump_error(error),
                Some((tree_config, _)) => if max_depth > MAX_SIZED_DEPTH {
                    created matches Err(error) && is_oversized_error(error)
                } else {
                    built_as(
                        created,
                        tree_signing_result(
                            payer,
                            tree_creator,
                            merkle_tree@,
                            tree_config,
                            signer_key,
                            max_depth,
                            max_buffer_size,
                            rent_exempt_balance,
                            recent_blockhash,
                        ),
                    )
                },
            },
        },
    }
}

/// Signing the two instructions of a plan with one key comes to what
/// `tree_signing_result` says of the plan's accounts.
pub proof fn lemma_tree_signing(
    plan: TreePlan,
    instructions: TreeInstructions,
    rent_exempt_balance: u64,
    signer_key: Seq<u8>,
    recent_blockhash: Seq<u8>,
)
    requires
        instructions_of(plan, rent_exempt_balance, instructions),
        plan.accounts.log_wrapper == log_wrapper_program(),
        plan.accounts.compression_program == compression_program(),
        plan.accounts.system_program == system_program(),
        plan.space == tree_account_space(plan.max_depth),
    ensures
        single_signer_result(
            plan.accounts.payer,
            signer_key,
            instructions.create_account,
            instructions.create_tree_config,
            recent_blockhash,
        ) == tree_signing_result(
            plan.accounts.payer@,
            plan.accounts.tree_creator@,
            plan.accounts.merkle_tree@,
            plan.accounts.tree_config@,
            signer_key,
            plan.max_depth,
            plan.max_buffer_size,
            rent_exempt_balance,
            recent_blockhash,
        ),
{
    let payer = plan.accounts.payer;
    let first = instructions.create_account;
    let second = instructions.create_tree_config;
    assert(first.accounts@.len() == 2 && second.accounts@.len() == 7);
    assert(first.accounts@[0].is_signer && first.accounts@[1].is_signer);
    assert(second.accounts@[2].is_signer && second.accounts@[3].is_signer);
    assert(first.accounts@[1].pubkey == plan.accounts.merkle_tree);
    assert(second.accounts@[3].pubkey == plan.accounts.tree_creator);
    assert(only_payer_signs(payer, first, second) <==> plan.accounts.merkle_tree@ == payer@
        && plan.accounts.tree_creator@ == payer@);
    assert(key_is_asked(signer_key, payer, first, second) <==> signer_key == payer@ || signer_key
        == plan.accounts.merkle_tree@ || signer_key == plan.accounts.tree_creator@);
    assert(call_of(first).accounts =~= seq![payer@, plan.accounts.merkle_tree@]);
    assert(call_of(second).accounts =~= seq![
        plan.accounts.tree_config@,
        plan.accounts.merkle_tree@,
        payer@,
        plan.accounts.tree_creator@,
        log_wrapper_program()@,
        compression_program()@,
        system_program()@,
    ]);
    assert(message_of(payer, first, second, recent_blockhash).calls =~= tree_message(
        payer@,
        plan.accounts.tree_creator@,
        plan.accounts.merkle_tree@,
        plan.accounts.tree_config@,
        plan.max_depth,
        plan.max_buffer_size,
        rent_exempt_balance,
        recent_blockhash,
    ).calls);
}

/// Builds the transaction that opens the tree at `merkle_tree` and signs
/// it with `signer`. The keys are looked at first, then the tree's
/// configuration address and its depth; past those the transaction is owed
/// exactly where the payer, the creator, the tree and the signer are one
/// key, and it is then the one `tree_message` describes.
pub fn create_tree_config_with(
    payer_pubkey: &str,
    tree_creator_pubkey: &str,
    merkle_tree: &Address,
    signer: &Keypair,
    max_depth: u32,
    max_buffer_size: u32,
    rent_exempt_balance: u64,
    recent_blockhash: &[u8; 32],
) -> (created: Result<Transaction, BubblegumError>)
    ensures
        creation_outcome(
            payer_pubkey@,
            tree_creator_pubkey@,
            *merkle_tree,
            keypair_key(*signer),
            max_depth,
            max_buffer_size,
            rent_exempt_balance,
            recent_blockhash@,
            created,
        ),
{
    let plan = match plan_tree(
        payer_pubkey,
        tree_creator_pubkey,
        merkle_tree,
        max_depth,
        max_buffer_size,
    ) {
        Ok(plan) => plan,
        Err(error) => {
            return Err(error);
        },
    };
    let instructions = tree_instructions(&plan, rent_exempt_balance);
    proof {
        lemma_payload_lengths(
            rent_exempt_balance,
            plan.space,
            bubblegum_program(),
            plan.max_depth,
            plan.max_buffer_size,
        );
        lemma_tree_signing(
            plan,
            instructions,
            rent_exempt_balance,
            keypair_key(*signer),
            recent_blockhash@,
        );
    }
    construct_transaction(
        &plan.accounts.payer,
        signer,
        &instructions.create_account,
        &instructions.create_tree_config,
        recent_blockhash,
    )
}

/// What creating a tree under a freshly drawn key pair yields: what
/// `creation_outcome` says for some key pair that signs and whose address
/// is the tree's.
pub open spec fn fresh_creation_outcome(
    payer_text: Seq<char>,
    creator_text: Seq<char>,
    max_depth: u32,
    max_buffer_size: u32,
    rent_exempt_balance: u64,
    recent_blockhash: Seq<u8>,
    created: Result<Transaction, BubblegumError>,
) -> bool {
    exists|merkle_tree: Address|
        #[trigger] creation_outcome(
            payer_text,
            creator_text,
            merkle_tree,
            merkle_tree@,
            max_depth,
            max_buffer_size,
            rent_exempt_balance,
            recent_blockhash,
            created,
        )
}

/// Builds and signs the transaction that opens a tree under a freshly
/// generated key pair, whose address is the tree's and which is the one
/// signer.
pub fn create_tree_config(
    payer_pubkey: &str,
    tree_creator_pubkey: &str,
    max_depth: u32,
    max_buffer_size: u32,
    rent_exempt_balance: u64,
    recent_blockhash: &[u8; 32],
) -> (created: Result<Transaction, BubblegumError>)
    ensures
        fresh_creation_outcome(
            payer_pubkey@,
            tree_creator_pubkey@,
            max_depth,
            max_buffer_size,
            rent_exempt_balance,
            recent_blockhash@,
            created,
        ),
{
    let signer = generate_keypair();
    let merkle_tree = keypair_address(&signer);
    let created = create_tree_config_with(
        payer_pubkey,
        tree_creator_pubkey,
        &merkle_tree,
        &signer,
        max_depth,
        max_buffer_size,
        rent_exempt_balance,
        recent_blockhash,
    );
    proof {
        assert(creation_outcome(
            payer_pubkey@,
            tree_creator_pubkey@,
            merkle_tree,
            merkle_tree@,
            max_depth,
            max_buffer_size,
            rent_exempt_balance,
            recent_blockhash@,
            created,
        ));
    }
    created
}

} // verus!
