//! The three mutating operations of the ledger: deposit, transfer, withdraw.
//!
//! Each operation is a single atomic transition: given the account records,
//! the caller's identity and the collaborators' replies, it validates every
//! precondition before anything external, sequences the external steps in
//! the fixed order of the protocol, and commits the resulting handles.  The
//! transition of each operation is stated as a spec function, the executable
//! operation is proved equal to it, and the trace of service calls it made
//! is returned so that the ordering itself is part of the contract.
//!
//! Failures after an already-committed external step (say, a rejected
//! ciphertext after a successful custody deposit) abort the remaining steps
//! without compensating the committed ones; the returned trace shows the
//! caller exactly how far the operation came.

use vstd::prelude::*;

use crate::errors::DacError;
use crate::service::DepositEnv;
use crate::service::ServiceCall;
use crate::service::TransferEnv;
use crate::service::WithdrawEnv;
use crate::state::AccountState;
use crate::state::DacAccount;
use crate::state::GrantStatus;
use crate::state::SENTINEL_HANDLE;
use crate::codec::decode_plaintext;
use crate::codec::parse_plaintext_to_u64;

verus! {

/// Whether `caller` may move funds out of `account`, checked before any
/// external call: the caller must own the account and the account must be
/// in the `Initialized` lifecycle state.
pub open spec fn account_authorize_spec(account: DacAccount, caller: u64) -> Result<(), DacError> {
    if caller != account.owner {
        Err(DacError::NotOwner)
    } else if account.state != AccountState::Initialized {
        Err(DacError::AccountNotInitialized)
    } else {
        Ok(())
    }
}

pub fn account_authorize(account: &DacAccount, caller: u64) -> (r: Result<(), DacError>)
    ensures
        r == account_authorize_spec(*account, caller),
{
    if caller != account.owner {
        Err(DacError::NotOwner)
    } else if account.state != AccountState::Initialized {
        Err(DacError::AccountNotInitialized)
    } else {
        Ok(())
    }
}

/// The transfer preconditions: the caller owns the source, both accounts are
/// initialized, and both belong to the same registry.
pub open spec fn transfer_authorize_spec(
    source: DacAccount,
    destination: DacAccount,
    caller: u64,
) -> Result<(), DacError> {
    if caller != source.owner {
        Err(DacError::NotOwner)
    } else if source.state != AccountState::Initialized {
        Err(DacError::AccountNotInitialized)
    } else if destination.state != AccountState::Initialized {
        Err(DacError::AccountNotInitialized)
    } else if destination.mint != source.mint {
        Err(DacError::MintMismatch)
    } else {
        Ok(())
    }
}

pub fn transfer_authorize(source: &DacAccount, destination: &DacAccount, caller: u64) -> (r: Result<
    (),
    DacError,
>)
    ensures
        r == transfer_authorize_spec(*source, *destination, caller),
{
    if caller != source.owner {
        Err(DacError::NotOwner)
    } else if source.state != AccountState::Initialized {
        Err(DacError::AccountNotInitialized)
    } else if destination.state != AccountState::Initialized {
        Err(DacError::AccountNotInitialized)
    } else if destination.mint != source.mint {
        Err(DacError::MintMismatch)
    } else {
        Ok(())
    }
}

/// How a credited account's balance is to be updated once a fresh handle has
/// been materialized.
#[derive(Clone, Copy, Debug, PartialEq, Eq, Structural)]
pub enum BalanceUpdate {
    /// The balance was at the zero sentinel: adopt the fresh handle outright,
    /// with no spurious encrypted add against zero.
    Adopt { handle: u128 },
    /// Ask the engine for the encrypted sum of the two handles and adopt its
    /// reply.
    RequestAdd { lhs: u128, rhs: u128 },
}

/// The crediting decision: adopt the fresh handle on a zero-sentinel
/// balance, otherwise request one encrypted addition of the existing balance
/// and the fresh handle.
pub open spec fn deposit_plan_spec(account: DacAccount, fresh: u128) -> BalanceUpdate {
    if account.balance_handle == SENTINEL_HANDLE {
        BalanceUpdate::Adopt { handle: fresh }
    } else {
        BalanceUpdate::RequestAdd { lhs: account.balance_handle, rhs: fresh }
    }
}

pub fn deposit_plan(account: &DacAccount, fresh: u128) -> (plan: BalanceUpdate)
    ensures
        plan == deposit_plan_spec(*account, fresh),
{
    if account.balance_handle == SENTINEL_HANDLE {
        BalanceUpdate::Adopt { handle: fresh }
    } else {
        BalanceUpdate::RequestAdd { lhs: account.balance_handle, rhs: fresh }
    }
}

/// Replace the balance handle atomically; every other field of the account
/// — in particular the owner — is untouched.
pub fn commit_balance(account: &mut DacAccount, handle: u128)
    ensures
        final(account).balance_handle == handle,
        final(account).mint == old(account).mint,
        final(account).owner == old(account).owner,
        final(account).state == old(account).state,
        final(account).bump == old(account).bump,
{
    account.balance_handle = handle;
}

/// Turn a custody-service reply into the operation's view of that step.
pub fn custody_result(moved: bool) -> (r: Result<(), DacError>)
    ensures
        moved ==> r == Ok::<(), DacError>(()),
        !moved ==> r == Err::<(), DacError>(DacError::CustodyTransferFailed),
{
    if moved {
        Ok(())
    } else {
        Err(DacError::CustodyTransferFailed)
    }
}

/// Map the engine's reply on a supplied ciphertext: a rejected ciphertext
/// fails the operation with `InvalidCiphertext`.
pub fn materialize_result(reply: Option<u128>) -> (r: Result<u128, DacError>)
    ensures
        reply matches Some(handle) ==> r == Ok::<u128, DacError>(handle),
        reply is None ==> r == Err::<u128, DacError>(DacError::InvalidCiphertext),
{
    match reply {
        Some(handle) => Ok(handle),
        None => Err(DacError::InvalidCiphertext),
    }
}

/// Turn the engine's answer on a decryption proof into the operation's: a failed proof is
/// always fatal, the sole gate between the opaque ledger and plaintext
/// release.
pub fn proof_result(verified: bool) -> (r: Result<(), DacError>)
    ensures
        verified ==> r == Ok::<(), DacError>(()),
        !verified ==> r == Err::<(), DacError>(DacError::ProofVerificationFailed),
{
    if verified {
        Ok(())
    } else {
        Err(DacError::ProofVerificationFailed)
    }
}

/// The report on an optional decryption-access grant.
pub open spec fn grant_status_spec(requested: bool, granted: bool) -> GrantStatus {
    if !requested {
        GrantStatus::NotRequested
    } else if granted {
        GrantStatus::Granted
    } else {
        GrantStatus::Failed
    }
}

pub fn grant_status(requested: bool, granted: bool) -> (status: GrantStatus)
    ensures
        status == grant_status_spec(requested, granted),
{
    if !requested {
        GrantStatus::NotRequested
    } else if granted {
        GrantStatus::Granted
    } else {
        GrantStatus::Failed
    }
}

/// Decode the claimed plaintext and refuse a claim of exactly zero.
pub fn withdraw_claim(plaintext_amount: &Vec<u8>) -> (r: Result<u64, DacError>)
    ensures
        decode_plaintext(plaintext_amount@) == 0 ==> r == Err::<u64, DacError>(
            DacError::ZeroAmount,
        ),
        decode_plaintext(plaintext_amount@) != 0 ==> (r matches Ok(v) && v as nat
            == decode_plaintext(plaintext_amount@)),
{
    match parse_plaintext_to_u64(plaintext_amount) {
        Ok(v) => if v == 0 {
            Err(DacError::ZeroAmount)
        } else {
            Ok(v)
        },
        Err(e) => Err(e),
    }
}

/// The deposit transition: custody first, then materialization, then the
/// crediting decision, then the optional access grant.  Precondition
/// failures leave the trace empty; a custody failure aborts before any
/// encrypted state changes; grant failures are reported, never fatal.
pub open spec fn deposit_spec(
    account: DacAccount,
    caller: u64,
    usdc_amount: u64,
    env: DepositEnv,
) -> (DacAccount, Result<GrantStatus, DacError>, Seq<ServiceCall>) {
    match account_authorize_spec(account, caller) {
        Err(e) => (account, Err(e), Seq::<ServiceCall>::empty()),
        Ok(_) => if !env.custody_ok {
            (
                account,
                Err(DacError::CustodyTransferFailed),
                seq![ServiceCall::MoveToVault { amount: usdc_amount }],
            )
        } else {
            match env.materialized {
                None => (
                    account,
                    Err(DacError::InvalidCiphertext),
                    seq![
                        ServiceCall::MoveToVault { amount: usdc_amount },
                        ServiceCall::Materialize,
                    ],
                ),
                Some(fresh) => {
                    let new_balance = if account.balance_handle == SENTINEL_HANDLE {
                        fresh
                    } else {
                        env.add_result
                    };
                    let updated = DacAccount { balance_handle: new_balance, ..account };
                    let base = if account.balance_handle == SENTINEL_HANDLE {
                        seq![
                            ServiceCall::MoveToVault { amount: usdc_amount },
                            ServiceCall::Materialize,
                        ]
                    } else {
                        seq![
                            ServiceCall::MoveToVault { amount: usdc_amount },
                            ServiceCall::Materialize,
                            ServiceCall::EncAdd { lhs: account.balance_handle, rhs: fresh },
                        ]
                    };
                    if env.grant_requested {
                        (
                            updated,
                            Ok(grant_status_spec(true, env.grant_ok)),
                            base.push(
                                ServiceCall::GrantAccess {
                                    handle: new_balance,
                                    grantee: account.owner,
                                },
                            ),
                        )
                    } else {
                        (updated, Ok(GrantStatus::NotRequested), base)
                    }
                },
            }
        },
    }
}

/// Deposit `usdc_amount` of the backing asset and credit the account with
/// the encrypted handle materialized from the caller's ciphertext.
pub fn deposit(account: &mut DacAccount, caller: u64, usdc_amount: u64, env: DepositEnv) -> ((
    res,
    calls,
): (Result<GrantStatus, DacError>, Vec<ServiceCall>))
    ensures
        *final(account) == deposit_spec(*old(account), caller, usdc_amount, env).0,
        res == deposit_spec(*old(account), caller, usdc_amount, env).1,
        calls@ == deposit_spec(*old(account), caller, usdc_amount, env).2,
{
    let ghost pre = *account;
    let mut trace: Vec<ServiceCall> = Vec::new();
    match account_authorize(account, caller) {
        Err(e) => {
            return (Err(e), trace);
        },
        Ok(_) => {},
    }
    trace.push(ServiceCall::MoveToVault { amount: usdc_amount });
    match custody_result(env.custody_ok) {
        Err(e) => {
            proof {
                assert(trace@ =~= deposit_spec(pre, caller, usdc_amount, env).2);
            }
            return (Err(e), trace);
        },
        Ok(_) => {},
    }
    trace.push(ServiceCall::Materialize);
    let fresh = match materialize_result(env.materialized) {
        Ok(handle) => handle,
        Err(e) => {
            proof {
                assert(trace@ =~= deposit_spec(pre, caller, usdc_amount, env).2);
            }
            return (Err(e), trace);
        },
    };
    match deposit_plan(account, fresh) {
        BalanceUpdate::Adopt { handle } => {
            commit_balance(account, handle);
        },
        BalanceUpdate::RequestAdd { lhs, rhs } => {
            trace.push(ServiceCall::EncAdd { lhs, rhs });
            commit_balance(account, env.add_result);
        },
    }
    let status = grant_status(env.grant_requested, env.grant_ok);
    if env.grant_requested {
        trace.push(
            ServiceCall::GrantAccess { handle: account.balance_handle, grantee: account.owner },
        );
    }
    proof {
        assert(trace@ =~= deposit_spec(pre, caller, usdc_amount, env).2);
    }
    (Ok(status), trace)
}

/// The transfer transition: materialize the amount handle, debit the source
/// with one encrypted subtraction, credit the destination (adoption on a
/// zero sentinel, otherwise one encrypted addition), then the optional
/// grants.  No custody movement occurs in a transfer, and the debit is
/// committed before the credit is computed.
pub open spec fn transfer_spec(
    source: DacAccount,
    destination: DacAccount,
    caller: u64,
    env: TransferEnv,
) -> (DacAccount, DacAccount, Result<(GrantStatus, GrantStatus), DacError>, Seq<ServiceCall>) {
    match transfer_authorize_spec(source, destination, caller) {
        Err(e) => (source, destination, Err(e), Seq::<ServiceCall>::empty()),
        Ok(_) => match env.materialized {
            None => (
                source,
                destination,
                Err(DacError::InvalidCiphertext),
                seq![ServiceCall::Materialize],
            ),
            Some(fresh) => {
                let new_source = DacAccount { balance_handle: env.sub_result, ..source };
                let new_dest_balance = if destination.balance_handle == SENTINEL_HANDLE {
                    fresh
                } else {
                    env.add_result
                };
                let new_destination = DacAccount {
                    balance_handle: new_dest_balance,
                    ..destination
                };
                let base = if destination.balance_handle == SENTINEL_HANDLE {
                    seq![
                        ServiceCall::Materialize,
                        ServiceCall::EncSub { lhs: source.balance_handle, rhs: fresh },
                    ]
                } else {
                    seq![
                        ServiceCall::Materialize,
                        ServiceCall::EncSub { lhs: source.balance_handle, rhs: fresh },
                        ServiceCall::EncAdd { lhs: destination.balance_handle, rhs: fresh },
                    ]
                };
                if env.grants_requested {
                    (
                        new_source,
                        new_destination,
                        Ok(
                            (
                                grant_status_spec(true, env.grant_source_ok),
                                grant_status_spec(true, env.grant_dest_ok),
                            ),
                        ),
                        base.push(
                            ServiceCall::GrantAccess {
                                handle: env.sub_result,
                                grantee: source.owner,
                            },
                        ).push(
                            ServiceCall::GrantAccess {
                                handle: new_dest_balance,
                                grantee: destination.owner,
                            },
                        ),
                    )
                } else {
                    (
                        new_source,
                        new_destination,
                        Ok((GrantStatus::NotRequested, GrantStatus::NotRequested)),
                        base,
                    )
                }
            },
        },
    }
}

/// Move an encrypted amount from `source` to `destination` without exposing
/// any plaintext to the ledger.
pub fn transfer_tokens(
    source: &mut DacAccount,
    destination: &mut DacAccount,
    caller: u64,
    env: TransferEnv,
) -> ((res, calls): (Result<(GrantStatus, GrantStatus), DacError>, Vec<ServiceCall>))
    ensures
        *final(source) == transfer_spec(*old(source), *old(destination), caller, env).0,
        *final(destination) == transfer_spec(*old(source), *old(destination), caller, env).1,
        res == transfer_spec(*old(source), *old(destination), caller, env).2,
        calls@ == transfer_spec(*old(source), *old(destination), caller, env).3,
{
    let ghost pre_source = *source;
    let ghost pre_destination = *destination;
    let mut trace: Vec<ServiceCall> = Vec::new();
    match transfer_authorize(source, destination, caller) {
        Err(e) => {
            return (Err(e), trace);
        },
        Ok(_) => {},
    }
    trace.push(ServiceCall::Materialize);
    let fresh = match materialize_result(env.materialized) {
        Ok(handle) => handle,
        Err(e) => {
            proof {
                assert(trace@ =~= transfer_spec(pre_source, pre_destination, caller, env).3);
            }
            return (Err(e), trace);
        },
    };
    trace.push(ServiceCall::EncSub { lhs: source.balance_handle, rhs: fresh });
    commit_balance(source, env.sub_result);
    match deposit_plan(destination, fresh) {
        BalanceUpdate::Adopt { handle } => {
            commit_balance(destination, handle);
        },
        BalanceUpdate::RequestAdd { lhs, rhs } => {
            trace.push(ServiceCall::EncAdd { lhs, rhs });
            commit_balance(destination, env.add_result);
        },
    }
    let source_status = grant_status(env.grants_requested, env.grant_source_ok);
    let dest_status = grant_status(env.grants_requested, env.grant_dest_ok);
    if env.grants_requested {
        trace.push(
            ServiceCall::GrantAccess { handle: source.balance_handle, grantee: source.owner },
        );
        trace.push(
            ServiceCall::GrantAccess {
                handle: destination.balance_handle,
                grantee: destination.owner,
            },
        );
    }
    proof {
        assert(trace@ =~= transfer_spec(pre_source, pre_destination, caller, env).3);
    }
    (Ok((source_status, dest_status)), trace)
}

/// The withdrawal transition: verify the decryption proof, decode and check
/// the claimed amount, release the payout from custody, and only then reset
/// the balance to the zero sentinel.  Every failure leaves the account
/// record exactly as it was: the claim is never destroyed before the payout
/// has succeeded.
pub open spec fn withdraw_spec(
    account: DacAccount,
    caller: u64,
    plaintext_amount: Seq<u8>,
    env: WithdrawEnv,
) -> (DacAccount, Result<u64, DacError>, Seq<ServiceCall>) {
    match account_authorize_spec(account, caller) {
        Err(e) => (account, Err(e), Seq::<ServiceCall>::empty()),
        Ok(_) => if !env.proof_ok {
            (account, Err(DacError::ProofVerificationFailed), seq![ServiceCall::VerifyProof])
        } else {
            let amount = decode_plaintext(plaintext_amount);
            if amount == 0 {
                (account, Err(DacError::ZeroAmount), seq![ServiceCall::VerifyProof])
            } else {
                let calls = seq![
                    ServiceCall::VerifyProof,
                    ServiceCall::MoveFromVault { amount: amount as u64 },
                ];
                if !env.custody_ok {
                    (account, Err(DacError::CustodyTransferFailed), calls)
                } else {
                    (
                        DacAccount { balance_handle: SENTINEL_HANDLE, ..account },
                        Ok(amount as u64),
                        calls,
                    )
                }
            }
        },
    }
}

/// Release the account's entire proven balance: all-or-nothing, no partial
/// withdrawal.  The claimed plaintext is trusted only because the engine
/// verified the decryption proof over it.
pub fn withdraw(
    account: &mut DacAccount,
    caller: u64,
    plaintext_amount: &Vec<u8>,
    env: WithdrawEnv,
) -> ((res, calls): (Result<u64, DacError>, Vec<ServiceCall>))
    ensures
        *final(account) == withdraw_spec(*old(account), caller, plaintext_amount@, env).0,
        res == withdraw_spec(*old(account), caller, plaintext_amount@, env).1,
        calls@ == withdraw_spec(*old(account), caller, plaintext_amount@, env).2,
{
    let ghost pre = *account;
    let mut trace: Vec<ServiceCall> = Vec::new();
    match account_authorize(account, caller) {
        Err(e) => {
            return (Err(e), trace);
        },
        Ok(_) => {},
    }
    trace.push(ServiceCall::VerifyProof);
    match proof_result(env.proof_ok) {
        Err(e) => {
            proof {
                assert(trace@ =~= withdraw_spec(pre, caller, plaintext_amount@, env).2);
            }
            return (Err(e), trace);
        },
        Ok(_) => {},
    }
    let amount = match withdraw_claim(plaintext_amount) {
        Ok(v) => v,
        Err(e) => {
            proof {
                assert(trace@ =~= withdraw_spec(pre, caller, plaintext_amount@, env).2);
            }
            return (Err(e), trace);
        },
    };
    trace.push(ServiceCall::MoveFromVault { amount });
    match custody_result(env.custody_ok) {
        Err(e) => {
            proof {
                assert(trace@ =~= withdraw_spec(pre, caller, plaintext_amount@, env).2);
            }
            return (Err(e), trace);
        },
        Ok(_) => {},
    }
    commit_balance(account, SENTINEL_HANDLE);
    proof {
        assert(trace@ =~= withdraw_spec(pre, caller, plaintext_amount@, env).2);
    }
    (Ok(amount), trace)
}

} // verus!
