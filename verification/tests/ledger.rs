use dac_token::errors::DacError;
use dac_token::ops::deposit;
use dac_token::ops::transfer_tokens;
use dac_token::ops::withdraw;
use dac_token::service::DepositEnv;
use dac_token::service::ServiceCall;
use dac_token::service::TransferEnv;
use dac_token::service::WithdrawEnv;
use dac_token::state::initialize_account;
use dac_token::state::initialize_mint;
use dac_token::state::AccountState;
use dac_token::state::DacAccount;
use dac_token::state::DacMint;
use dac_token::state::GrantStatus;

const ALICE: u64 = 7;
const BOB: u64 = 8;
const MINT_KEY: u64 = 100;

fn fresh_account(owner: u64, balance_handle: u128) -> DacAccount {
    DacAccount { mint: MINT_KEY, owner, balance_handle, state: AccountState::Initialized, bump: 3 }
}

fn quiet_deposit_env(materialized: Option<u128>, add_result: u128) -> DepositEnv {
    DepositEnv {
        custody_ok: true,
        materialized,
        add_result,
        grant_requested: false,
        grant_ok: false,
    }
}

#[test]
fn mint_bootstrap_sets_every_field() {
    let mint = initialize_mint(ALICE, 55, 6, 254);
    assert_eq!(
        mint,
        DacMint {
            authority: ALICE,
            usdc_mint: 55,
            decimals: 6,
            is_initialized: true,
            total_supply_handle: 0,
            vault_bump: 254,
        }
    );
}

#[test]
fn account_bootstrap_starts_at_sentinel() {
    let mint = initialize_mint(ALICE, 55, 6, 254);
    let account = initialize_account(&mint, MINT_KEY, BOB, 9).unwrap();
    assert_eq!(account.mint, MINT_KEY);
    assert_eq!(account.owner, BOB);
    assert_eq!(account.balance_handle, 0);
    assert_eq!(account.state, AccountState::Initialized);
}

#[test]
fn account_bootstrap_refuses_uninitialized_registry() {
    let mint = DacMint {
        authority: ALICE,
        usdc_mint: 55,
        decimals: 6,
        is_initialized: false,
        total_supply_handle: 0,
        vault_bump: 254,
    };
    assert_eq!(initialize_account(&mint, MINT_KEY, BOB, 9), Err(DacError::UninitializedMint));
}

#[test]
fn first_deposit_adopts_the_materialized_handle() {
    let mut account = fresh_account(ALICE, 0);
    let (res, calls) = deposit(&mut account, ALICE, 1_000, quiet_deposit_env(Some(42), 999));
    assert_eq!(res, Ok(GrantStatus::NotRequested));
    assert_eq!(account.balance_handle, 42);
    // No encrypted arithmetic on a zero-sentinel account.
    assert_eq!(
        calls,
        vec![ServiceCall::MoveToVault { amount: 1_000 }, ServiceCall::Materialize]
    );
}

#[test]
fn second_deposit_requests_exactly_one_addition() {
    let mut account = fresh_account(ALICE, 42);
    let (res, calls) = deposit(&mut account, ALICE, 2_000, quiet_deposit_env(Some(5), 77));
    assert_eq!(res, Ok(GrantStatus::NotRequested));
    assert_eq!(account.balance_handle, 77);
    assert_eq!(
        calls,
        vec![
            ServiceCall::MoveToVault { amount: 2_000 },
            ServiceCall::Materialize,
            ServiceCall::EncAdd { lhs: 42, rhs: 5 },
        ]
    );
}

#[test]
fn deposit_by_non_owner_fails_before_any_call() {
    let mut account = fresh_account(ALICE, 42);
    let (res, calls) = deposit(&mut account, BOB, 1_000, quiet_deposit_env(Some(5), 77));
    assert_eq!(res, Err(DacError::NotOwner));
    assert_eq!(account.balance_handle, 42);
    assert!(calls.is_empty());
}

#[test]
fn deposit_into_frozen_account_is_refused() {
    let mut account = fresh_account(ALICE, 42);
    account.state = AccountState::Frozen;
    let (res, calls) = deposit(&mut account, ALICE, 1_000, quiet_deposit_env(Some(5), 77));
    assert_eq!(res, Err(DacError::AccountNotInitialized));
    assert!(calls.is_empty());
}

#[test]
fn deposit_stops_when_custody_fails() {
    let mut account = fresh_account(ALICE, 42);
    let mut env = quiet_deposit_env(Some(5), 77);
    env.custody_ok = false;
    let (res, calls) = deposit(&mut account, ALICE, 1_000, env);
    assert_eq!(res, Err(DacError::CustodyTransferFailed));
    assert_eq!(account.balance_handle, 42);
    assert_eq!(calls, vec![ServiceCall::MoveToVault { amount: 1_000 }]);
}

#[test]
fn deposit_reports_rejected_ciphertext() {
    let mut account = fresh_account(ALICE, 42);
    let (res, calls) = deposit(&mut account, ALICE, 1_000, quiet_deposit_env(None, 77));
    assert_eq!(res, Err(DacError::InvalidCiphertext));
    assert_eq!(account.balance_handle, 42);
    assert_eq!(
        calls,
        vec![ServiceCall::MoveToVault { amount: 1_000 }, ServiceCall::Materialize]
    );
}

#[test]
fn deposit_reports_the_grant_without_failing() {
    let mut account = fresh_account(ALICE, 0);
    let mut env = quiet_deposit_env(Some(42), 999);
    env.grant_requested = true;
    env.grant_ok = true;
    let (res, calls) = deposit(&mut account, ALICE, 1_000, env);
    assert_eq!(res, Ok(GrantStatus::Granted));
    assert_eq!(calls.last(), Some(&ServiceCall::GrantAccess { handle: 42, grantee: ALICE }));

    let mut other = fresh_account(ALICE, 0);
    let mut env = quiet_deposit_env(Some(42), 999);
    env.grant_requested = true;
    env.grant_ok = false;
    let (res, _calls) = deposit(&mut other, ALICE, 1_000, env);
    // A refused grant is reported, never fatal: the balance still moved.
    assert_eq!(res, Ok(GrantStatus::Failed));
    assert_eq!(other.balance_handle, 42);
}

fn quiet_transfer_env(materialized: Option<u128>, sub_result: u128, add_result: u128) -> TransferEnv {
    TransferEnv {
        materialized,
        sub_result,
        add_result,
        grants_requested: false,
        grant_source_ok: false,
        grant_dest_ok: false,
    }
}

#[test]
fn transfer_to_sentinel_destination_adopts_the_handle() {
    let mut source = fresh_account(ALICE, 30);
    let mut destination = fresh_account(BOB, 0);
    let (res, calls) =
        transfer_tokens(&mut source, &mut destination, ALICE, quiet_transfer_env(Some(4), 50, 99));
    assert_eq!(res, Ok((GrantStatus::NotRequested, GrantStatus::NotRequested)));
    assert_eq!(source.balance_handle, 50);
    assert_eq!(destination.balance_handle, 4);
    assert_eq!(
        calls,
        vec![ServiceCall::Materialize, ServiceCall::EncSub { lhs: 30, rhs: 4 }]
    );
}

#[test]
fn transfer_to_funded_destination_adds_once() {
    let mut source = fresh_account(ALICE, 30);
    let mut destination = fresh_account(BOB, 60);
    let (res, calls) =
        transfer_tokens(&mut source, &mut destination, ALICE, quiet_transfer_env(Some(4), 50, 99));
    assert_eq!(res, Ok((GrantStatus::NotRequested, GrantStatus::NotRequested)));
    assert_eq!(source.balance_handle, 50);
    assert_eq!(destination.balance_handle, 99);
    assert_eq!(
        calls,
        vec![
            ServiceCall::Materialize,
            ServiceCall::EncSub { lhs: 30, rhs: 4 },
            ServiceCall::EncAdd { lhs: 60, rhs: 4 },
        ]
    );
}

#[test]
fn transfer_by_non_owner_fails_before_any_call() {
    let mut source = fresh_account(ALICE, 30);
    let mut destination = fresh_account(BOB, 60);
    let (res, calls) =
        transfer_tokens(&mut source, &mut destination, BOB, quiet_transfer_env(Some(4), 50, 99));
    assert_eq!(res, Err(DacError::NotOwner));
    assert_eq!(source.balance_handle, 30);
    assert_eq!(destination.balance_handle, 60);
    assert!(calls.is_empty());
}

#[test]
fn transfer_across_registries_is_refused() {
    let mut source = fresh_account(ALICE, 30);
    let mut destination = fresh_account(BOB, 60);
    destination.mint = MINT_KEY + 1;
    let (res, calls) =
        transfer_tokens(&mut source, &mut destination, ALICE, quiet_transfer_env(Some(4), 50, 99));
    assert_eq!(res, Err(DacError::MintMismatch));
    assert!(calls.is_empty());
}

#[test]
fn transfer_to_uninitialized_destination_is_refused() {
    let mut source = fresh_account(ALICE, 30);
    let mut destination = fresh_account(BOB, 0);
    destination.state = AccountState::Uninitialized;
    let (res, calls) =
        transfer_tokens(&mut source, &mut destination, ALICE, quiet_transfer_env(Some(4), 50, 99));
    assert_eq!(res, Err(DacError::AccountNotInitialized));
    assert!(calls.is_empty());
}

#[test]
fn transfer_reports_rejected_ciphertext() {
    let mut source = fresh_account(ALICE, 30);
    let mut destination = fresh_account(BOB, 60);
    let (res, calls) =
        transfer_tokens(&mut source, &mut destination, ALICE, quiet_transfer_env(None, 50, 99));
    assert_eq!(res, Err(DacError::InvalidCiphertext));
    assert_eq!(source.balance_handle, 30);
    assert_eq!(destination.balance_handle, 60);
    assert_eq!(calls, vec![ServiceCall::Materialize]);
}

#[test]
fn transfer_grants_cover_both_new_balances() {
    let mut source = fresh_account(ALICE, 30);
    let mut destination = fresh_account(BOB, 60);
    let mut env = quiet_transfer_env(Some(4), 50, 99);
    env.grants_requested = true;
    env.grant_source_ok = true;
    env.grant_dest_ok = false;
    let (res, calls) = transfer_tokens(&mut source, &mut destination, ALICE, env);
    assert_eq!(res, Ok((GrantStatus::Granted, GrantStatus::Failed)));
    assert_eq!(calls[3], ServiceCall::GrantAccess { handle: 50, grantee: ALICE });
    assert_eq!(calls[4], ServiceCall::GrantAccess { handle: 99, grantee: BOB });
}

#[test]
fn withdraw_releases_the_proven_amount_and_resets() {
    let mut account = fresh_account(ALICE, 42);
    let claim: Vec<u8> = 500_000u64.to_le_bytes().to_vec();
    let (res, calls) =
        withdraw(&mut account, ALICE, &claim, WithdrawEnv { proof_ok: true, custody_ok: true });
    assert_eq!(res, Ok(500_000));
    assert_eq!(account.balance_handle, 0);
    assert_eq!(
        calls,
        vec![ServiceCall::VerifyProof, ServiceCall::MoveFromVault { amount: 500_000 }]
    );
}

#[test]
fn withdraw_with_bad_proof_changes_nothing() {
    let mut account = fresh_account(ALICE, 42);
    let claim: Vec<u8> = 500_000u64.to_le_bytes().to_vec();
    let (res, calls) =
        withdraw(&mut account, ALICE, &claim, WithdrawEnv { proof_ok: false, custody_ok: true });
    assert_eq!(res, Err(DacError::ProofVerificationFailed));
    assert_eq!(account.balance_handle, 42);
    assert_eq!(calls, vec![ServiceCall::VerifyProof]);
}

#[test]
fn withdraw_keeps_the_claim_when_the_payout_fails() {
    let mut account = fresh_account(ALICE, 42);
    let claim: Vec<u8> = 500_000u64.to_le_bytes().to_vec();
    let (res, calls) =
        withdraw(&mut account, ALICE, &claim, WithdrawEnv { proof_ok: true, custody_ok: false });
    assert_eq!(res, Err(DacError::CustodyTransferFailed));
    // The balance is never reset before the payout succeeds.
    assert_eq!(account.balance_handle, 42);
    assert_eq!(
        calls,
        vec![ServiceCall::VerifyProof, ServiceCall::MoveFromVault { amount: 500_000 }]
    );
}

#[test]
fn withdraw_rejects_a_zero_claim_without_custody() {
    let mut account = fresh_account(ALICE, 42);
    let claim: Vec<u8> = vec![0, 0, 0];
    let (res, calls) =
        withdraw(&mut account, ALICE, &claim, WithdrawEnv { proof_ok: true, custody_ok: true });
    assert_eq!(res, Err(DacError::ZeroAmount));
    assert_eq!(account.balance_handle, 42);
    assert_eq!(calls, vec![ServiceCall::VerifyProof]);
}

#[test]
fn withdraw_by_non_owner_fails_before_any_call() {
    let mut account = fresh_account(ALICE, 42);
    let claim: Vec<u8> = 500_000u64.to_le_bytes().to_vec();
    let (res, calls) =
        withdraw(&mut account, BOB, &claim, WithdrawEnv { proof_ok: true, custody_ok: true });
    assert_eq!(res, Err(DacError::NotOwner));
    assert_eq!(account.balance_handle, 42);
    assert!(calls.is_empty());
}

/// The whole life of a registry: two deposits, a transfer to a fresh
/// account, and a proven withdrawal.
#[test]
fn full_confidential_session() {
    let mint = initialize_mint(1, 2, 6, 254);
    assert_eq!(mint.decimals, 6);
    let mut a = initialize_account(&mint, MINT_KEY, ALICE, 10).unwrap();
    let mut b = initialize_account(&mint, MINT_KEY, BOB, 11).unwrap();

    let h1: u128 = 1001;
    let h2: u128 = 1002;
    let h3: u128 = 1003;
    let h4: u128 = 1004;
    let h5: u128 = 1005;

    let (res, _) = deposit(&mut a, ALICE, 1_000_000, quiet_deposit_env(Some(h1), 0));
    assert_eq!(res, Ok(GrantStatus::NotRequested));
    assert_eq!(a.balance_handle, h1);

    let (res, calls) = deposit(&mut a, ALICE, 250_000, quiet_deposit_env(Some(h2), h3));
    assert_eq!(res, Ok(GrantStatus::NotRequested));
    assert_eq!(a.balance_handle, h3);
    assert_eq!(calls[2], ServiceCall::EncAdd { lhs: h1, rhs: h2 });

    let (res, calls) = transfer_tokens(&mut a, &mut b, ALICE, quiet_transfer_env(Some(h4), h5, 0));
    assert_eq!(res, Ok((GrantStatus::NotRequested, GrantStatus::NotRequested)));
    assert_eq!(a.balance_handle, h5);
    assert_eq!(b.balance_handle, h4);
    assert_eq!(calls[1], ServiceCall::EncSub { lhs: h3, rhs: h4 });

    let claim: Vec<u8> = 500_000u64.to_le_bytes().to_vec();
    let (res, calls) =
        withdraw(&mut a, ALICE, &claim, WithdrawEnv { proof_ok: true, custody_ok: true });
    assert_eq!(res, Ok(500_000));
    assert_eq!(a.balance_handle, 0);
    assert_eq!(calls[1], ServiceCall::MoveFromVault { amount: 500_000 });
    assert_eq!(b.balance_handle, h4);
}
