//! What the escrow takes from the token ledger's crate and from the host's
//! address derivation.
use vstd::prelude::*;
use vstd::bytes::spec_u64_from_le_bytes;

use crate::error::ProcessError;

verus! {

/// The ledger program's identity, `TokenkegQfeZyiNwAJbNbGKPFXCWuBvf9Ss623VQ5DA`, as bytes.
pub open spec fn token_program_key() -> Seq<u8> {
    seq![
        6u8, 221, 246, 225, 215, 101, 161, 147, 217, 203, 225, 70, 206, 235, 121, 172,
        28, 180, 133, 237, 95, 91, 55, 145, 58, 140, 245, 133, 126, 255, 0, 169,
    ]
}

/// Relies on `spl_token::id`: the identity the ledger program is declared under.
#[verifier::external_body]
pub(crate) fn token_program_id() -> (r: [u8; 32])
    ensures
        r@ == token_program_key(),
{
    spl_token::id().to_bytes()
}

/// The address derived from one seed and a program's identity, with the
/// bump that proves it; `None` when no bump gives an address off the curve.
pub uninterp spec fn program_address_of(seed: Seq<u8>, program_id: Seq<u8>) -> Option<([u8; 32], u8)>;

/// Relies on `Pubkey::try_find_program_address`: the result is a hash-based
/// derivation from the seed and the program identity alone.
#[verifier::external_body]
pub(crate) fn find_program_address(seed: &[u8], program_id: &[u8; 32]) -> (r: Option<([u8; 32], u8)>)
    ensures
        r == program_address_of(seed@, program_id@),
{
    let program_id = solana_program::pubkey::Pubkey::new_from_array(*program_id);
    solana_program::pubkey::Pubkey::try_find_program_address(&[seed], &program_id)
        .map(|(address, bump)| (address.to_bytes(), bump))
}

/// Size in bytes of a ledger token account.
pub const TOKEN_ACCOUNT_LEN: usize = 165;

/// The four-byte tag of an optional field, at `at`, reads as absent or present.
pub open spec fn option_tag_valid(data: Seq<u8>, at: int) -> bool {
    ||| data.subrange(at, at + 4) == seq![0u8, 0, 0, 0]
    ||| data.subrange(at, at + 4) == seq![1u8, 0, 0, 0]
}

/// The bytes have the token-account layout: 165 bytes, a state byte of 0, 1
/// or 2, and valid tags on the delegate, native and close-authority fields.
pub open spec fn token_account_layout_valid(data: Seq<u8>) -> bool {
    &&& data.len() == TOKEN_ACCOUNT_LEN
    &&& option_tag_valid(data, 72)
    &&& data[108] <= 2
    &&& option_tag_valid(data, 109)
    &&& option_tag_valid(data, 129)
}

/// What reading a token account's held amount gives.
pub open spec fn spec_token_amount(data: Seq<u8>) -> Result<u64, ProcessError> {
    if !token_account_layout_valid(data) {
        Err(ProcessError::InvalidAccountData)
    } else if data[108] == 0 {
        Err(ProcessError::UninitializedAccount)
    } else {
        Ok(spec_u64_from_le_bytes(data.subrange(64, 72)))
    }
}

/// Relies on `spl_token::state::Account::unpack`: it checks the length and
/// the field tags, refuses an uninitialized account, and reads the amount at
/// bytes 64 to 72, little-endian.
#[verifier::external_body]
pub(crate) fn token_account_amount(data: &[u8]) -> (r: Result<u64, ProcessError>)
    ensures
        r == spec_token_amount(data@),
{
    match <spl_token::state::Account as solana_program::program_pack::Pack>::unpack(data) {
        Ok(account) => Ok(account.amount),
        Err(solana_program::program_error::ProgramError::UninitializedAccount) => {
            Err(ProcessError::UninitializedAccount)
        },
        Err(_) => Err(ProcessError::InvalidAccountData),
    }
}

} // verus!
