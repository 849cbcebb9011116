use vstd::prelude::*;
use solana_sdk::hash;
use solana_sdk::instruction as ledger;
use solana_sdk::pubkey::Pubkey;
use solana_sdk::signer::keypair::Keypair;
use solana_sdk::transaction::Transaction;
use crate::address::Address;
use crate::error::BubblegumError;
use crate::instruction::Instruction;

verus! {

/// `solana_sdk::signer::keypair::Keypair`, an Ed25519 key pair, carried
/// through without looking inside.
#[verifier::external_type_specification]
#[verifier::external_body]
pub struct ExKeypair(solana_sdk::signer::keypair::Keypair);

/// `solana_sdk::transaction::Transaction`, a message with its signatures,
/// carried through without looking inside.
#[verifier::external_type_specification]
#[verifier::external_body]
pub struct ExTransaction(solana_sdk::transaction::Transaction);

/// The most accounts two instructions may name together so that, with
/// their two programs and the payer, a message can still index every key
/// with one byte.
pub const MAX_MESSAGE_ACCOUNTS: usize = 252;

/// The longest payload an instruction can carry into a message, whose
/// format writes a payload's length in sixteen bits.
pub const MAX_PAYLOAD_BYTES: usize = 65535;

/// Two instructions that fit into one message: few enough accounts and
/// short enough payloads.
pub open spec fn fits_message(first: Instruction, second: Instruction) -> bool {
    &&& first.accounts@.len() + second.accounts@.len() <= MAX_MESSAGE_ACCOUNTS
    &&& first.data@.len() <= MAX_PAYLOAD_BYTES
    &&& second.data@.len() <= MAX_PAYLOAD_BYTES
}

/// Calls `solana_sdk::signer::keypair::Keypair::new`, which draws the key
/// from the operating system's randomness: nothing is promised of it.
#[verifier::external_body]
pub(crate) fn generate_keypair() -> (keypair: Keypair) {
    Keypair::new()
}

/// The address of a key pair: the 32 bytes of its public key, which
/// `<Keypair as solana_sdk::signer::Signer>::pubkey` reads out of it.
pub uninterp spec fn keypair_key(keypair: Keypair) -> Seq<u8>;

/// What a transaction holds, as far as the library speaks of it. It stands
/// for the fields of `solana_sdk::transaction::Transaction`: the first
/// account key of its message, the message's block hash, its instructions
/// with every account index resolved to the key it points at, and the
/// number of its signatures.
pub uninterp spec fn transaction_view(transaction: Transaction) -> TransactionView;

/// One instruction as a message holds it: the program it calls, the
/// addresses of its accounts in order, and its payload.
pub struct CallView {
    pub program_id: Seq<u8>,
    pub accounts: Seq<Seq<u8>>,
    pub data: Seq<u8>,
}

/// A transaction as plain values: who pays the fee, the block hash it was
/// signed over, its instructions in order, and how many signatures it
/// carries.
pub struct TransactionView {
    pub fee_payer: Seq<u8>,
    pub recent_blockhash: Seq<u8>,
    pub calls: Seq<CallView>,
    pub signatures: nat,
}

/// An instruction as a message holds it.
pub open spec fn call_of(ix: Instruction) -> CallView {
    CallView {
        program_id: ix.program_id@,
        accounts: Seq::new(ix.accounts@.len(), |i: int| ix.accounts@[i].pubkey@),
        data: ix.data@,
    }
}

/// The transaction that `payer` pays for and signs alone: the two
/// instructions in this order, over `recent_blockhash`, with one signature.
pub open spec fn message_of(
    payer: Address,
    first: Instruction,
    second: Instruction,
    recent_blockhash: Seq<u8>,
) -> TransactionView {
    TransactionView {
        fee_payer: payer@,
        recent_blockhash,
        calls: seq![call_of(first), call_of(second)],
        signatures: 1,
    }
}

/// Every account that either instruction asks to sign is the payer.
pub open spec fn only_payer_signs(payer: Address, first: Instruction, second: Instruction) -> bool {
    &&& forall|i: int|
        0 <= i < first.accounts@.len() && #[trigger] first.accounts@[i].is_signer
            ==> first.accounts@[i].pubkey@ == payer@
    &&& forall|i: int|
        0 <= i < second.accounts@.len() && #[trigger] second.accounts@[i].is_signer
            ==> second.accounts@[i].pubkey@ == payer@
}

/// `key` is the payer, or an account that one of the instructions asks to
/// sign.
pub open spec fn key_is_asked(
    key: Seq<u8>,
    payer: Address,
    first: Instruction,
    second: Instruction,
) -> bool {
    ||| key == payer@
    ||| exists|i: int|
        0 <= i < first.accounts@.len() && #[trigger] first.accounts@[i].is_signer
            && first.accounts@[i].pubkey@ == key
    ||| exists|i: int|
        0 <= i < second.accounts@.len() && #[trigger] second.accounts@[i].is_signer
            && second.accounts@[i].pubkey@ == key
}

/// The refusal of a key that nobody asked to sign.
pub open spec fn mismatch_text() -> Seq<char> {
    "keypair-pubkey mismatch"@
}

/// The refusal of a key that was asked for while signatures are wanting.
pub open spec fn not_enough_text() -> Seq<char> {
    "not enough signers"@
}

/// `key` is the payer and nobody else has to sign: the one case in which a
/// single key pair fills every signature the message asks for.
pub open spec fn signs_alone(
    key: Seq<u8>,
    payer: Address,
    first: Instruction,
    second: Instruction,
) -> bool {
    key == payer@ && only_payer_signs(payer, first, second)
}

/// What a key that does not sign alone is told: that signatures are
/// wanting where it is one of the signers asked for, and that it is a
/// mismatch where it is none of them.
pub open spec fn refusal_text(
    key: Seq<u8>,
    payer: Address,
    first: Instruction,
    second: Instruction,
) -> Seq<char> {
    if key_is_asked(key, payer, first, second) {
        not_enough_text()
    } else {
        mismatch_text()
    }
}

/// What signing with the one key pair whose address is `key` comes to.
/// The message asks for a signature from the payer and from every other
/// account marked as signer, and one key pair gives one. So the
/// transaction is owed exactly where `key` is the payer and nobody else
/// has to sign; a key that is asked for but is not enough is told so; a
/// key that nobody asked for is a mismatch.
pub open spec fn single_signer_result(
    payer: Address,
    key: Seq<u8>,
    first: Instruction,
    second: Instruction,
    recent_blockhash: Seq<u8>,
) -> Result<TransactionView, Seq<char>> {
    if signs_alone(key, payer, first, second) {
        Ok(message_of(payer, first, second, recent_blockhash))
    } else {
        Err(refusal_text(key, payer, first, second))
    }
}

/// Calls `<Keypair as solana_sdk::signer::Signer>::pubkey`; the contract
/// gives the address the name `keypair_key` of the key pair.
#[verifier::external_body]
pub(crate) fn keypair_address(keypair: &Keypair) -> (address: Address)
    ensures
        address@ == keypair_key(*keypair),
{
    Address { bytes: solana_sdk::signer::Signer::pubkey(keypair).to_bytes() }
}

/// Calls `Transaction::new_with_payer` on the two instructions, in this
/// order, then `Transaction::try_sign` with the one signer and the block
/// hash; a refusal comes back as the error's text. From the source: the
/// payer is the first key of the message; each instruction keeps its
/// program, its accounts in order and its payload; `try_sign` sets the
/// block hash, answers `KeypairPubkeyMismatch` for a key that is not among
/// the required signers and `NotEnoughSigners` while a signature is
/// unfilled, and a key pair raises no other error. That the one signature
/// it writes is never the all-zero placeholder is a fact of Ed25519, not
/// of this source. `fits_message` keeps the call from panicking: the
/// message indexes at most 255 keys with one byte, and serialising it for
/// the signature fails on a payload of more than 65535 bytes.
#[verifier::external_body]
fn sign_with_payer(
    payer: &Address,
    signer: &Keypair,
    first: &Instruction,
    second: &Instruction,
    recent_blockhash: &[u8; 32],
) -> (signed: Result<Transaction, String>)
    requires
        fits_message(*first, *second),
    ensures
        signed is Ok <==> signs_alone(keypair_key(*signer), *payer, *first, *second),
        signed is Ok ==> transaction_view(signed->Ok_0) == message_of(
            *payer,
            *first,
            *second,
            recent_blockhash@,
        ),
        signed is Err ==> signed->Err_0@ == refusal_text(
            keypair_key(*signer),
            *payer,
            *first,
            *second,
        ),
{
    let key = |a: &Address| Pubkey::new_from_array(a.bytes);
    let outside = |ix: &Instruction| ledger::Instruction {
        program_id: key(&ix.program_id),
        accounts: ix.accounts.iter().map(|m| ledger::AccountMeta {
            pubkey: key(&m.pubkey), is_signer: m.is_signer, is_writable: m.is_writable,
        }).collect(),
        data: ix.data.clone(),
    };
    let mut tx = Transaction::new_with_payer(&[outside(first), outside(second)], Some(&key(payer)));
    tx.try_sign(&[signer], hash::Hash::new_from_array(*recent_blockhash)).map_err(|e| e.to_string())?;
    Ok(tx)
}

/// What the outcome of signing is reported as: the transaction itself, or
/// a `TransactionError` that carries the signer's message.
pub open spec fn reported(
    signed: Result<Transaction, String>,
    outcome: Result<Transaction, BubblegumError>,
) -> bool {
    match signed {
        Ok(tx) => outcome == Ok::<Transaction, BubblegumError>(tx),
        Err(message) => outcome == Err::<Transaction, BubblegumError>(
            BubblegumError::TransactionError(message),
        ),
    }
}

/// Turns the outcome of signing into the library's result.
pub fn signing_outcome(signed: Result<Transaction, String>) -> (outcome: Result<
    Transaction,
    BubblegumError,
>)
    ensures
        reported(signed, outcome),
{
    match signed {
        Ok(tx) => Ok(tx),
        Err(message) => Err(BubblegumError::TransactionError(message)),
    }
}

/// `built` is what `expected` asks for: the transaction with that view, or
/// a `TransactionError` with that text.
pub open spec fn built_as(
    built: Result<Transaction, BubblegumError>,
    expected: Result<TransactionView, Seq<char>>,
) -> bool {
    match expected {
        Ok(view) => built matches Ok(transaction) && transaction_view(transaction) == view,
        Err(text) => built matches Err(error) && (error matches BubblegumError::TransactionError(
            message,
        ) && message@ == text),
    }
}

/// Two results that answer to the same expectation agree: both are
/// transactions with the same view, or both are refusals with the same
/// rendered text. So equal arguments give equal results, up to the bytes
/// of the signature, which the view leaves out.
pub proof fn lemma_same_arguments_same_result(
    one: Result<Transaction, BubblegumError>,
    two: Result<Transaction, BubblegumError>,
    expected: Result<TransactionView, Seq<char>>,
)
    requires
        built_as(one, expected),
        built_as(two, expected),
    ensures
        one is Ok <==> two is Ok,
        one is Ok ==> transaction_view(one->Ok_0) == transaction_view(two->Ok_0),
        one is Err ==> one->Err_0.rendered() == two->Err_0.rendered(),
{
}

/// Assembles a transaction that `payer` pays for, the account creation
/// ahead of the tree configuration, and signs it with `signer` over
/// `recent_blockhash`. The transaction is owed exactly where `signer` is
/// the payer and no other account has to sign; it then holds the two
/// instructions in this order, the payer as its first key, the block hash
/// and one signature. Otherwise the refusal is a `TransactionError`. The
/// two instructions have to fit into one message.
pub fn construct_transaction(
    payer: &Address,
    signer: &Keypair,
    create_account_ix: &Instruction,
    ix: &Instruction,
    recent_blockhash: &[u8; 32],
) -> (built: Result<Transaction, BubblegumError>)
    requires
        fits_message(*create_account_ix, *ix),
    ensures
        built_as(
            built,
            single_signer_result(
                *payer,
                keypair_key(*signer),
                *create_account_ix,
                *ix,
                recent_blockhash@,
            ),
        ),
        built is Ok <==> signs_alone(keypair_key(*signer), *payer, *create_account_ix, *ix),
{
    let signed = sign_with_payer(payer, signer, create_account_ix, ix, recent_blockhash);
    signing_outcome(signed)
}

} // verus!
