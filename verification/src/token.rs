//! What the pool reads of the token accounts and mints that it is shown.

use vstd::prelude::*;
use vstd::bytes::spec_u64_from_le_bytes;
use crate::errors::UnpackError;
use crate::pubkey::Pubkey;

verus! {

/// A token account, as far as the pool reads it.
#[derive(Clone, Copy, Debug, PartialEq, Eq)]
pub struct TokenAccount {
    /// The token that the account holds.
    pub mint: Pubkey,
    /// Who owns the account.
    pub owner: Pubkey,
    /// How much it holds, in base units.
    pub amount: u64,
}

/// A mint, as far as the pool reads it.
#[derive(Clone, Copy, Debug, PartialEq, Eq)]
pub struct Mint {
    /// The address of the mint.
    pub key: Pubkey,
    /// Its number of decimal places.
    pub decimals: u8,
}

/// An account of which nothing has been checked: the program that owns it,
/// and its bytes.
#[derive(Clone, Debug, PartialEq, Eq)]
pub struct UncheckedAccount {
    pub owner: Pubkey,
    pub data: Vec<u8>,
}

/// A transfer that checks the mint's decimal places, for the custodian to
/// carry out.
#[derive(Clone, Copy, Debug, PartialEq, Eq)]
pub struct TransferChecked {
    pub amount: u64,
    pub decimals: u8,
}

/// Length in bytes of a packed token account.
pub const TOKEN_ACCOUNT_LEN: usize = 165;

/// Whether the four bytes at `at` are the tag of an optional field: the
/// little-endian number 0 (absent) or 1 (present).
pub open spec fn option_tag_is_valid(data: Seq<u8>, at: int) -> bool {
    &&& data[at] == 0 || data[at] == 1
    &&& data[at + 1] == 0
    &&& data[at + 2] == 0
    &&& data[at + 3] == 0
}

/// Whether `data` has the layout of a packed token account: 165 bytes, made
/// of mint (32), owner (32), amount (8), optional delegate (4 + 32), state
/// (1), optional native reserve (4 + 8), delegated amount (8) and optional
/// close authority (4 + 32), with valid tags and a state byte of 0, 1 or 2.
pub open spec fn is_token_account_layout(data: Seq<u8>) -> bool {
    &&& data.len() == TOKEN_ACCOUNT_LEN
    &&& option_tag_is_valid(data, 72)
    &&& data[108] <= 2
    &&& option_tag_is_valid(data, 109)
    &&& option_tag_is_valid(data, 129)
}

/// Whether `data` decodes to an initialized token account: it has the layout,
/// and its state byte is not 0.
pub open spec fn is_initialized_token_account(data: Seq<u8>) -> bool {
    is_token_account_layout(data) && data[108] != 0
}

/// Whether `account` is what `data` holds at the places of mint, owner and
/// amount.
pub open spec fn token_account_matches(account: TokenAccount, data: Seq<u8>) -> bool {
    &&& account.mint@ == data.subrange(0, 32)
    &&& account.owner@ == data.subrange(32, 64)
    &&& account.amount == spec_u64_from_le_bytes(data.subrange(64, 72))
}

/// Decodes a packed token account by `Pack::unpack` for
/// `spl_token::state::Account`.
///
/// Trusted, from the source of that function: the bytes of an initialized
/// account in the layout above decode, and then mint, owner and amount are the
/// first 32 bytes, the next 32 and the little-endian number in the 8 after
/// them. Bytes in the layout with state byte 0 give `UninitializedAccount`;
/// all others give `InvalidAccountData`.
#[verifier::external_body]
pub(crate) fn unpack_token_account(data: &[u8]) -> (r: Result<TokenAccount, UnpackError>)
    ensures
        is_initialized_token_account(data@) ==> r is Ok,
        r matches Ok(account) ==> is_initialized_token_account(data@) && token_account_matches(
            account,
            data@,
        ),
        is_token_account_layout(data@) && data@[108] == 0 ==> r is Err && r->Err_0
            == UnpackError::UninitializedAccount,
        !is_token_account_layout(data@) ==> r is Err && r->Err_0 == UnpackError::InvalidAccountData,
{
    match <anchor_spl::token::spl_token::state::Account as anchor_lang::solana_program::program_pack::Pack>::unpack(
        data,
    ) {
        Ok(account) => Ok(
            TokenAccount {
                mint: Pubkey { bytes: account.mint.to_bytes() },
                owner: Pubkey { bytes: account.owner.to_bytes() },
                amount: account.amount,
            },
        ),
        Err(anchor_lang::solana_program::program_error::ProgramError::UninitializedAccount) => Err(
            UnpackError::UninitializedAccount,
        ),
        Err(_) => Err(UnpackError::InvalidAccountData),
    }
}

} // verus!
