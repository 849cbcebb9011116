use bubblegumsdk_native::address::{parse_pubkey, Address, ParseFailure};
use bubblegumsdk_native::error::BubblegumError;
use bubblegumsdk_native::mint::MintV1;
use bubblegumsdk_native::space::{merkle_tree_space, MAX_SIZED_DEPTH};
use std::str::FromStr;

#[test]
fn pubkey_error_is_prefixed() {
    let e = BubblegumError::PubkeyError(String::from("bad key"));
    assert_eq!(e.message(), "Pubkey error: bad key");
}

#[test]
fn rpc_error_is_prefixed() {
    let e = BubblegumError::RpcError(String::from("timeout"));
    assert_eq!(e.message(), "RPC error: timeout");
}

#[test]
fn transaction_error_is_prefixed() {
    let e = BubblegumError::TransactionError(String::from("not enough signers"));
    assert_eq!(e.message(), "Transaction error: not enough signers");
}

#[test]
fn error_with_empty_detail_is_the_prefix() {
    assert_eq!(BubblegumError::RpcError(String::new()).message(), "RPC error: ");
}

#[test]
fn space_of_shallow_trees() {
    assert_eq!(merkle_tree_space(0), Some(40));
    assert_eq!(merkle_tree_space(1), Some(72));
    assert_eq!(merkle_tree_space(3), Some(264));
    assert_eq!(merkle_tree_space(14), Some(524_296));
    assert_eq!(merkle_tree_space(20), Some(33_554_440));
    assert_eq!(merkle_tree_space(30), Some(34_359_738_376));
}

#[test]
fn space_at_the_deepest_sized_tree() {
    assert_eq!(MAX_SIZED_DEPTH, 58);
    assert_eq!(merkle_tree_space(58), Some(9_223_372_036_854_775_816));
}

#[test]
fn space_past_the_deepest_sized_tree_is_none() {
    assert_eq!(merkle_tree_space(59), None);
    assert_eq!(merkle_tree_space(63), None);
    assert_eq!(merkle_tree_space(64), None);
    assert_eq!(merkle_tree_space(u32::MAX), None);
}

#[test]
fn parse_pubkey_of_all_ones_is_all_zero() {
    let parsed = parse_pubkey("11111111111111111111111111111111");
    assert_eq!(parsed, Ok(Address { bytes: [0u8; 32] }));
}

#[test]
fn parse_pubkey_agrees_with_the_ledger_library() {
    let text = "BGUMAp9Gq7iTEuizy4pqaxsTyUCBK68MDfK752saRPUY";
    let expected = solana_program::pubkey::Pubkey::from_str(text).unwrap();
    let parsed = parse_pubkey(text).unwrap();
    assert_eq!(parsed.bytes, expected.to_bytes());
    assert_eq!(parsed.bytes[0], 152);
    assert_eq!(parsed.bytes[31], 165);
}

#[test]
fn parse_pubkey_refuses_a_character_outside_base58() {
    let parsed = parse_pubkey("0OIl111111111111111111111111111l");
    assert_eq!(
        parsed,
        Err(BubblegumError::PubkeyError(String::from("Invalid Base58 string")))
    );
}

#[test]
fn parse_pubkey_refuses_a_short_text() {
    let parsed = parse_pubkey("abc");
    assert_eq!(
        parsed,
        Err(BubblegumError::PubkeyError(String::from("String is the wrong size")))
    );
}

#[test]
fn parse_pubkey_refuses_the_empty_text() {
    let parsed = parse_pubkey("");
    assert_eq!(
        parsed,
        Err(BubblegumError::PubkeyError(String::from("String is the wrong size")))
    );
}

#[test]
fn parse_pubkey_refuses_a_text_of_forty_five_bytes() {
    let text = "111111111111111111111111111111111111111111111";
    assert_eq!(text.len(), 45);
    assert_eq!(
        parse_pubkey(text),
        Err(BubblegumError::PubkeyError(String::from("String is the wrong size")))
    );
}

#[test]
fn parse_pubkey_refuses_a_long_text_before_looking_at_its_characters() {
    let text = "0000000000000000000000000000000000000000000000";
    assert_eq!(
        parse_pubkey(text),
        Err(BubblegumError::PubkeyError(String::from("String is the wrong size")))
    );
}

#[test]
fn parse_failure_messages_are_the_parsers_own() {
    assert_eq!(
        ParseFailure::WrongSize.message(),
        solana_program::pubkey::ParsePubkeyError::WrongSize.to_string()
    );
    assert_eq!(
        ParseFailure::Invalid.message(),
        solana_program::pubkey::ParsePubkeyError::Invalid.to_string()
    );
}

#[test]
fn rendered_pubkey_error_carries_the_parsers_message() {
    let error = parse_pubkey("not a key!").unwrap_err();
    assert_eq!(error.message(), "Pubkey error: Invalid Base58 string");
}

#[test]
fn mint_accounts_hold_what_they_are_given() {
    let a = |n: u8| Address { bytes: [n; 32] };
    let mint = MintV1 {
        tree_config: a(1),
        leaf_owner: a(2),
        leaf_delegate: a(3),
        merkle_tree: a(4),
        payer: a(5),
        tree_creator_or_delegate: a(6),
        log_wrapper: a(7),
        compression_program: a(8),
        system_program: a(9),
    };
    assert_eq!(mint.tree_config.bytes, [1u8; 32]);
    assert_eq!(mint.leaf_owner.bytes, [2u8; 32]);
    assert_eq!(mint.leaf_delegate.bytes, [3u8; 32]);
    assert_eq!(mint.merkle_tree.bytes, [4u8; 32]);
    assert_eq!(mint.payer.bytes, [5u8; 32]);
    assert_eq!(mint.tree_creator_or_delegate.bytes, [6u8; 32]);
    assert_eq!(mint.log_wrapper.bytes, [7u8; 32]);
    assert_eq!(mint.compression_program.bytes, [8u8; 32]);
    assert_eq!(mint.system_program.bytes, [9u8; 32]);
}
