//! The two persistent record kinds of the ledger, and their bootstrap.
//!
//! Identities (the registry authority, an account owner, a record address)
//! are modelled as plain `u64` values: the logic only ever compares them for
//! equality.  Encrypted values are `u128` handles owned by the external
//! encrypted-value engine; the value `0` is a reserved sentinel meaning "no
//! encrypted value has been assigned yet" and is never a real handle.

use vstd::prelude::*;

use crate::errors::DacError;

verus! {

/// The reserved handle value meaning "no balance assigned yet".
pub const SENTINEL_HANDLE: u128 = 0;

/// Lifecycle state of a confidential account.  Only `Initialized` accounts
/// accept deposits, transfers and withdrawals; `Frozen` is terminal for
/// mutation and no operation in this core transitions into it.
#[derive(Clone, Copy, Debug, PartialEq, Eq, Structural)]
pub enum AccountState {
    Uninitialized,
    Initialized,
    Frozen,
}

/// The registry record: the single configuration record for one backing
/// asset.  `decimals` is informational only and never enters encrypted
/// arithmetic; `total_supply_handle` is a best-effort aggregate that the
/// three core operations do not maintain.
#[derive(Clone, Copy, Debug, PartialEq, Eq, Structural)]
pub struct DacMint {
    /// Identity permitted to administer the registry.
    pub authority: u64,
    /// Identity of the plaintext backing asset being custodied.
    pub usdc_mint: u64,
    /// Precision of the backing asset.
    pub decimals: u8,
    /// No account may attach to an uninitialized registry.
    pub is_initialized: bool,
    /// Encrypted running total of all outstanding balances.
    pub total_supply_handle: u128,
    /// Opaque binding used to authorize custody transfers out of the vault.
    pub vault_bump: u8,
}

/// A per-holder confidential account.  The `owner` is immutable after
/// creation; only the owner may move funds out of the account.
#[derive(Clone, Copy, Debug, PartialEq, Eq, Structural)]
pub struct DacAccount {
    /// The registry this account belongs to.
    pub mint: u64,
    /// Identity authorized to operate this account.
    pub owner: u64,
    /// Opaque encrypted balance; `SENTINEL_HANDLE` means logically zero.
    pub balance_handle: u128,
    /// Lifecycle state.
    pub state: AccountState,
    /// Opaque address-derivation datum, carried but never interpreted.
    pub bump: u8,
}

/// How the optional decryption-access grant of an operation went.  A failed
/// grant affects visibility only, never balance correctness, so it is
/// reported rather than turned into an operation failure.
#[derive(Clone, Copy, Debug, PartialEq, Eq, Structural)]
pub enum GrantStatus {
    /// The caller did not ask for a grant.
    NotRequested,
    /// The engine recorded the grant.
    Granted,
    /// The engine refused the grant; the balances still stand.
    Failed,
}

/// Build the registry record, exactly once per backing asset.
pub fn initialize_mint(authority: u64, usdc_mint: u64, decimals: u8, vault_bump: u8) -> (mint: DacMint)
    ensures
        mint == (DacMint {
            authority,
            usdc_mint,
            decimals,
            is_initialized: true,
            total_supply_handle: 0,
            vault_bump,
        }),
{
    DacMint {
        authority,
        usdc_mint,
        decimals,
        is_initialized: true,
        total_supply_handle: 0,
        vault_bump,
    }
}

/// Build a fresh confidential account attached to the registry whose record
/// is `mint` and whose address is `mint_key`.  The account starts at the
/// zero sentinel in the `Initialized` state; an uninitialized registry is
/// refused before anything is built.
pub fn initialize_account(mint: &DacMint, mint_key: u64, owner: u64, bump: u8) -> (r: Result<
    DacAccount,
    DacError,
>)
    ensures
        mint.is_initialized ==> r == Ok::<DacAccount, DacError>(DacAccount {
            mint: mint_key,
            owner,
            balance_handle: SENTINEL_HANDLE,
            state: AccountState::Initialized,
            bump,
        }),
        !mint.is_initialized ==> r == Err::<DacAccount, DacError>(DacError::UninitializedMint),
{
    if !mint.is_initialized {
        return Err(DacError::UninitializedMint);
    }
    Ok(DacAccount {
        mint: mint_key,
        owner,
        balance_handle: SENTINEL_HANDLE,
        state: AccountState::Initialized,
        bump,
    })
}

} // verus!
