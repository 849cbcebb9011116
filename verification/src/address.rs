use vstd::prelude::*;
use vstd::string::{StringExecFns, StringSliceAdditionalSpecFns};
use solana_program::pubkey::{ParsePubkeyError, Pubkey};
use crate::error::BubblegumError;

verus! {

/// A 32-byte account address on the ledger.
#[derive(Clone, Copy, Debug, PartialEq, Eq)]
pub struct Address {
    pub bytes: [u8; 32],
}

impl View for Address {
    type V = Seq<u8>;

    open spec fn view(&self) -> Seq<u8> {
        self.bytes@
    }
}

/// Why a textual public key was not accepted.
#[derive(Clone, Copy, Debug, PartialEq, Eq, Structural)]
pub enum ParseFailure {
    /// The text is too long, or does not decode to exactly 32 bytes.
    WrongSize,
    /// The text is not Base58.
    Invalid,
}

impl ParseFailure {
    /// The message that goes with the failure.
    pub open spec fn text(self) -> Seq<char> {
        match self {
            ParseFailure::WrongSize => "String is the wrong size"@,
            ParseFailure::Invalid => "Invalid Base58 string"@,
        }
    }

    /// Renders the failure as its message.
    pub fn message(&self) -> (text: String)
        ensures
            text@ == self.text(),
    {
        match self {
            ParseFailure::WrongSize => String::from_str("String is the wrong size"),
            ParseFailure::Invalid => String::from_str("Invalid Base58 string"),
        }
    }
}

/// The longest text, in bytes, that can be a Base58 public key.
pub const MAX_PUBKEY_TEXT_BYTES: usize = 44;

/// What `solana_program`'s Base58 parser makes of a text: the 32 bytes of
/// the key, or the reason it gave for refusing.
pub uninterp spec fn pubkey_text_decoded(text: Seq<char>) -> Result<Seq<u8>, ParseFailure>;

/// What `solana_program`'s search for a program-derived address returns for
/// one seed under a program: the address and the bump that produced it, or
/// `None` where the seed is longer than 32 bytes or no bump yields an
/// address off the curve.
pub uninterp spec fn program_address(seed: Seq<u8>, program: Seq<u8>) -> Option<(Seq<u8>, u8)>;

/// A parse outcome with the address taken as its bytes.
pub open spec fn decoded_view(decoded: Result<Address, ParseFailure>) -> Result<
    Seq<u8>,
    ParseFailure,
> {
    match decoded {
        Ok(address) => Ok(address@),
        Err(failure) => Err(failure),
    }
}

/// The outcome of a parse that refused the text.
pub open spec fn pubkey_refusal(failure: ParseFailure) -> Result<Seq<u8>, ParseFailure> {
    Err(failure)
}

/// A derived address and its bump, with the address taken as its bytes.
pub open spec fn found_view(found: Option<(Address, u8)>) -> Option<(Seq<u8>, u8)> {
    match found {
        Some((address, bump)) => Some((address@, bump)),
        None => None,
    }
}

/// Calls `<solana_program::pubkey::Pubkey as FromStr>::from_str`. The
/// contract names the outcome after the text alone and adds what the source
/// checks first: a text of more than 44 bytes is refused for its size.
#[verifier::external_body]
fn decode_pubkey(text: &str) -> (decoded: Result<Address, ParseFailure>)
    ensures
        decoded_view(decoded) == pubkey_text_decoded(text@),
        text.spec_bytes().len() > MAX_PUBKEY_TEXT_BYTES ==> decoded_view(decoded) == pubkey_refusal(
            ParseFailure::WrongSize,
        ),
{
    match <Pubkey as std::str::FromStr>::from_str(text) {
        Ok(key) => Ok(Address { bytes: key.to_bytes() }),
        Err(ParsePubkeyError::WrongSize) => Err(ParseFailure::WrongSize),
        Err(ParsePubkeyError::Invalid) => Err(ParseFailure::Invalid),
    }
}

/// Calls `solana_program::pubkey::Pubkey::try_find_program_address` with a
/// single seed. The contract names the outcome after the seed and the
/// program's address.
#[verifier::external_body]
pub(crate) fn find_program_address(seed: &[u8], program: &Address) -> (found: Option<(Address, u8)>)
    ensures
        found_view(found) == program_address(seed@, program@),
{
    let program_key = Pubkey::new_from_array(program.bytes);
    match Pubkey::try_find_program_address(&[seed], &program_key) {
        Some((key, bump)) => Some((Address { bytes: key.to_bytes() }, bump)),
        None => None,
    }
}

/// The error a refused public key is reported as.
pub open spec fn pubkey_error_of(failure: ParseFailure, error: BubblegumError) -> bool {
    error matches BubblegumError::PubkeyError(message) && message@ == failure.text()
}

/// Decodes a Base58 public key. A refusal is reported as a
/// `PubkeyError` that carries the parser's message; a text of more than 44
/// bytes is always refused for its size.
pub fn parse_pubkey(pubkey_str: &str) -> (parsed: Result<Address, BubblegumError>)
    ensures
        match pubkey_text_decoded(pubkey_str@) {
            Ok(bytes) => parsed matches Ok(address) && address@ == bytes,
            Err(failure) => parsed matches Err(error) && pubkey_error_of(failure, error),
        },
        pubkey_str.spec_bytes().len() > MAX_PUBKEY_TEXT_BYTES ==> (parsed matches Err(error)
            && pubkey_error_of(ParseFailure::WrongSize, error)),
{
    match decode_pubkey(pubkey_str) {
        Ok(address) => Ok(address),
        Err(failure) => Err(BubblegumError::PubkeyError(failure.message())),
    }
}

} // verus!
