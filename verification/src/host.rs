//! What the program takes from the host's own libraries: the well-known
//! identities, the rent schedule and the derivation of program addresses.
//! The contracts in this file are taken on trust from those libraries.

use vstd::prelude::*;
use crate::account::Pubkey;
use crate::rent::{Rent, ACCOUNT_STORAGE_OVERHEAD};

verus! {

/// The identity of the token program.
pub open spec fn token_program_key() -> Seq<u8> {
    seq![
        6u8, 221, 246, 225, 215, 101, 161, 147, 217, 203, 225, 70, 206, 235, 121, 172,
        28, 180, 133, 237, 95, 91, 55, 145, 58, 140, 245, 133, 126, 255, 0, 169,
    ]
}

/// The identity of the account through which the host publishes the rent
/// parameters.
pub open spec fn rent_sysvar_key() -> Seq<u8> {
    seq![
        6u8, 167, 213, 23, 25, 44, 92, 81, 33, 140, 201, 76, 61, 74, 241, 127,
        88, 218, 238, 8, 155, 161, 253, 68, 227, 219, 217, 138, 0, 0, 0, 0,
    ]
}

/// The minimum balance that `Rent::try_minimum_balance` of `solana_program`
/// computes for an account of `data_len` bytes under the given rent
/// parameters; `None` where it computes none.
pub uninterp spec fn rent_minimum_balance(
    lamports_per_byte: u64,
    exemption_threshold: Seq<u8>,
    burn_percent: u8,
    data_len: usize,
) -> Option<u64>;

/// The address that `Pubkey::try_find_program_address` of `solana_program`
/// derives from one seed and a program's identity, with the bump seed that
/// it found; `None` where it derives none.
pub uninterp spec fn program_address(seed: Seq<u8>, program_id: Seq<u8>) -> Option<
    (Seq<u8>, u8),
>;

/// Calls `spl_token::id`. The contract claims that it returns the bytes of
/// the token program's published address,
/// `TokenkegQfeZyiNwAJbNbGKPFXCWuBvf9Ss623VQ5DA`.
#[verifier::external_body]
pub(crate) fn token_program_id() -> (id: Pubkey)
    ensures
        id@ == token_program_key(),
{
    spl_token::id().to_bytes()
}

/// Calls `solana_program::sysvar::rent::id`. The contract claims that it
/// returns the bytes of the rent sysvar's published address,
/// `SysvarRent111111111111111111111111111111111`.
#[verifier::external_body]
#[allow(deprecated)]
pub(crate) fn rent_sysvar_id() -> (id: Pubkey)
    ensures
        id@ == rent_sysvar_key(),
{
    solana_program::sysvar::rent::id().to_bytes()
}

/// Calls `solana_program::rent::Rent::try_minimum_balance` on the rent
/// parameters that `rent` holds. The contract claims only that the result
/// is a function of the parameters and the length. The inputs on which the
/// base rent, the length plus the storage overhead of 128 bytes times the
/// rate, exceeds a `u64` are left out: there the multiplication in the
/// outside function can overflow.
#[verifier::external_body]
#[allow(deprecated)]
pub(crate) fn try_minimum_balance(rent: &Rent, data_len: usize) -> (balance: Option<u64>)
    requires
        (ACCOUNT_STORAGE_OVERHEAD + data_len) * rent.lamports_per_byte <= u64::MAX,
    ensures
        balance == rent_minimum_balance(
            rent.lamports_per_byte,
            rent.exemption_threshold@,
            rent.burn_percent,
            data_len,
        ),
{
    let outside = solana_program::rent::Rent {
        lamports_per_byte: rent.lamports_per_byte,
        exemption_threshold: rent.exemption_threshold,
        burn_percent: rent.burn_percent,
    };
    outside.try_minimum_balance(data_len)
}

/// Calls `solana_program::pubkey::Pubkey::try_find_program_address` with
/// the one seed and the program's identity. The contract claims only that
/// the result is a function of the two.
#[verifier::external_body]
pub(crate) fn try_find_program_address(seed: &[u8], program_id: &Pubkey) -> (found: Option<
    (Pubkey, u8),
>)
    ensures
        match found {
            Some((address, bump)) => program_address(seed@, program_id@) == Some((address@, bump)),
            None => program_address(seed@, program_id@) is None,
        },
{
    let program = solana_program::pubkey::Pubkey::new_from_array(*program_id);
    match solana_program::pubkey::Pubkey::try_find_program_address(&[seed], &program) {
        Some((address, bump)) => Some((address.to_bytes(), bump)),
        None => None,
    }
}

} // verus!
