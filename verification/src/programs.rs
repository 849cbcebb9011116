use vstd::prelude::*;
use crate::address::Address;

verus! {

/// Bytes of the address of the system program.
pub const SYSTEM_PROGRAM_ID: [u8; 32] = [
    0, 0, 0, 0, 0, 0, 0, 0, 0, 0, 0, 0, 0, 0, 0, 0,
    0, 0, 0, 0, 0, 0, 0, 0, 0, 0, 0, 0, 0, 0, 0, 0,
];

/// Bytes of the address of the Bubblegum program.
pub const BUBBLEGUM_PROGRAM_ID: [u8; 32] = [
    152, 139, 128, 235, 121, 53, 40, 105, 178, 36, 116, 95, 89, 221, 191, 138,
    38, 88, 202, 19, 220, 104, 129, 33, 38, 53, 28, 174, 7, 193, 165, 165,
];

/// Bytes of the address of the log wrapper (no-op) program.
pub const LOG_WRAPPER_ID: [u8; 32] = [
    11, 188, 15, 192, 187, 71, 202, 47, 116, 196, 17, 46, 148, 171, 19, 207,
    163, 198, 52, 229, 220, 23, 234, 203, 3, 205, 26, 35, 205, 126, 120, 124,
];

/// Bytes of the address of the account compression program.
pub const COMPRESSION_PROGRAM_ID: [u8; 32] = [
    9, 42, 19, 238, 149, 196, 28, 186, 8, 166, 127, 90, 198, 126, 141, 247,
    225, 218, 17, 98, 94, 29, 100, 19, 127, 143, 79, 35, 131, 3, 127, 20,
];

/// The address of the system program.
pub open spec fn system_program() -> Address {
    Address { bytes: SYSTEM_PROGRAM_ID }
}

/// The address of the Bubblegum program.
pub open spec fn bubblegum_program() -> Address {
    Address { bytes: BUBBLEGUM_PROGRAM_ID }
}

/// The address of the log wrapper program.
pub open spec fn log_wrapper_program() -> Address {
    Address { bytes: LOG_WRAPPER_ID }
}

/// The address of the account compression program.
pub open spec fn compression_program() -> Address {
    Address { bytes: COMPRESSION_PROGRAM_ID }
}

/// Reads `solana_program::system_program::ID`, which the source declares as
/// the Base58 text of thirty-two `1`s: thirty-two zero bytes.
#[verifier::external_body]
pub(crate) fn system_program_id() -> (id: Address)
    ensures
        id == system_program(),
{
    Address { bytes: solana_program::system_program::ID.to_bytes() }
}

/// Reads `mpl_bubblegum::ID`, declared as
/// `BGUMAp9Gq7iTEuizy4pqaxsTyUCBK68MDfK752saRPUY`; the contract gives its
/// bytes.
#[verifier::external_body]
pub(crate) fn bubblegum_program_id() -> (id: Address)
    ensures
        id == bubblegum_program(),
{
    Address { bytes: mpl_bubblegum::ID.to_bytes() }
}

/// Reads `spl_noop::ID`, declared as
/// `noopb9bkMVfRPU8AsbpTUg8AQkHtKwMYZiFUjNRtMmV`; the contract gives its
/// bytes.
#[verifier::external_body]
pub(crate) fn log_wrapper_id() -> (id: Address)
    ensures
        id == log_wrapper_program(),
{
    Address { bytes: spl_noop::ID.to_bytes() }
}

/// Reads `spl_account_compression::ID`, declared as
/// `cmtDvXumGCrqC1Age74AVPhSRVXJMd8PJS91L8KbNCK`; the contract gives its
/// bytes.
#[verifier::external_body]
pub(crate) fn compression_program_id() -> (id: Address)
    ensures
        id == compression_program(),
{
    Address { bytes: spl_account_compression::ID.to_bytes() }
}

} // verus!
