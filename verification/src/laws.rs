//! The laws of the ledger, proved over the operation transitions.
//!
//! Each proof function states one property of the deposit, transfer or
//! withdraw transition for every input its premises allow, over the same
//! spec functions the operations' own contracts use.

use vstd::prelude::*;

use crate::codec::decode_plaintext;
use crate::errors::DacError;
use crate::ops::account_authorize_spec;
use crate::ops::deposit_spec;
use crate::ops::transfer_authorize_spec;
use crate::ops::transfer_spec;
use crate::ops::withdraw_spec;
use crate::service::DepositEnv;
use crate::service::ServiceCall;
use crate::service::TransferEnv;
use crate::service::WithdrawEnv;
use crate::service::lemma_num_enc_adds_push;
use crate::service::lemma_num_enc_subs_push;
use crate::service::num_enc_adds;
use crate::service::num_enc_subs;
use crate::state::DacAccount;
use crate::state::GrantStatus;
use crate::state::SENTINEL_HANDLE;

verus! {

/// A deposit into an account at the zero sentinel adopts the freshly
/// materialized handle as the balance outright: no encrypted arithmetic of
/// any kind is requested.
pub proof fn lemma_first_deposit_adopts(
    account: DacAccount,
    caller: u64,
    usdc_amount: u64,
    env: DepositEnv,
)
    requires
        account.balance_handle == SENTINEL_HANDLE,
        account_authorize_spec(account, caller) is Ok,
        env.custody_ok,
        env.materialized is Some,
    ensures
        ({
            let (updated, res, calls) = deposit_spec(account, caller, usdc_amount, env);
            &&& updated.balance_handle == env.materialized->0
            &&& res is Ok
            &&& forall|i: int|
                0 <= i < calls.len() ==> !((#[trigger] calls[i]) is EncAdd) && !(calls[i] is EncSub)
        }),
{
}

/// A deposit into an account already holding a balance requests exactly one
/// encrypted addition, combining the prior balance handle with the freshly
/// materialized one, and adopts the engine's reply as the balance.
pub proof fn lemma_repeat_deposit_single_add(
    account: DacAccount,
    caller: u64,
    usdc_amount: u64,
    env: DepositEnv,
)
    requires
        account.balance_handle != SENTINEL_HANDLE,
        account_authorize_spec(account, caller) is Ok,
        env.custody_ok,
        env.materialized is Some,
    ensures
        ({
            let (updated, res, calls) = deposit_spec(account, caller, usdc_amount, env);
            &&& updated.balance_handle == env.add_result
            &&& res is Ok
            &&& num_enc_adds(calls) == 1
            &&& calls[2] == (ServiceCall::EncAdd {
                lhs: account.balance_handle,
                rhs: env.materialized->0,
            })
        }),
{
    let fresh = env.materialized->0;
    let c1 = seq![ServiceCall::MoveToVault { amount: usdc_amount }];
    let c2 = c1.push(ServiceCall::Materialize);
    let c3 = c2.push(ServiceCall::EncAdd { lhs: account.balance_handle, rhs: fresh });
    assert(c1.drop_last() =~= Seq::<ServiceCall>::empty());
    assert(num_enc_adds(Seq::<ServiceCall>::empty()) == 0);
    assert(num_enc_adds(c1) == 0);
    lemma_num_enc_adds_push(c1, ServiceCall::Materialize);
    lemma_num_enc_adds_push(c2, ServiceCall::EncAdd { lhs: account.balance_handle, rhs: fresh });
    assert(seq![
        ServiceCall::MoveToVault { amount: usdc_amount },
        ServiceCall::Materialize,
        ServiceCall::EncAdd { lhs: account.balance_handle, rhs: fresh },
    ] =~= c3);
    if env.grant_requested {
        lemma_num_enc_adds_push(
            c3,
            ServiceCall::GrantAccess {
                handle: env.add_result,
                grantee: account.owner,
            },
        );
    }
}

/// Encrypted conservation of a transfer: exactly one encrypted subtraction
/// is applied to the source, and exactly one encrypted addition — or direct
/// adoption when the destination was at the zero sentinel — credits the
/// destination.  The trace carries no plaintext at any step.
pub proof fn lemma_transfer_conservation(
    source: DacAccount,
    destination: DacAccount,
    caller: u64,
    env: TransferEnv,
)
    requires
        transfer_authorize_spec(source, destination, caller) is Ok,
        env.materialized is Some,
    ensures
        ({
            let (new_source, new_destination, res, calls) = transfer_spec(
                source,
                destination,
                caller,
                env,
            );
            &&& res is Ok
            &&& num_enc_subs(calls) == 1
            &&& new_source.balance_handle == env.sub_result
            &&& calls[1] == (ServiceCall::EncSub {
                lhs: source.balance_handle,
                rhs: env.materialized->0,
            })
            &&& destination.balance_handle == SENTINEL_HANDLE ==> num_enc_adds(calls) == 0
                && new_destination.balance_handle == env.materialized->0
            &&& destination.balance_handle != SENTINEL_HANDLE ==> num_enc_adds(calls) == 1
                && new_destination.balance_handle == env.add_result && calls[2]
                == (ServiceCall::EncAdd {
                lhs: destination.balance_handle,
                rhs: env.materialized->0,
            })
        }),
{
    let fresh = env.materialized->0;
    let debit = ServiceCall::EncSub { lhs: source.balance_handle, rhs: fresh };
    let credit = ServiceCall::EncAdd { lhs: destination.balance_handle, rhs: fresh };
    let c1 = seq![ServiceCall::Materialize];
    let c2 = c1.push(debit);
    assert(c1.drop_last() =~= Seq::<ServiceCall>::empty());
    assert(num_enc_adds(Seq::<ServiceCall>::empty()) == 0);
    assert(num_enc_subs(Seq::<ServiceCall>::empty()) == 0);
    assert(num_enc_adds(c1) == 0);
    assert(num_enc_subs(c1) == 0);
    lemma_num_enc_adds_push(c1, debit);
    lemma_num_enc_subs_push(c1, debit);
    lemma_num_enc_adds_push(c2, credit);
    lemma_num_enc_subs_push(c2, credit);
    assert(seq![ServiceCall::Materialize, debit] =~= c2);
    assert(seq![ServiceCall::Materialize, debit, credit] =~= c2.push(credit));
    let base = if destination.balance_handle == SENTINEL_HANDLE {
        c2
    } else {
        c2.push(credit)
    };
    if env.grants_requested {
        let new_dest_balance = if destination.balance_handle == SENTINEL_HANDLE {
            fresh
        } else {
            env.add_result
        };
        let g1 = ServiceCall::GrantAccess { handle: env.sub_result, grantee: source.owner };
        let g2 = ServiceCall::GrantAccess { handle: new_dest_balance, grantee: destination.owner };
        lemma_num_enc_adds_push(base, g1);
        lemma_num_enc_subs_push(base, g1);
        lemma_num_enc_adds_push(base.push(g1), g2);
        lemma_num_enc_subs_push(base.push(g1), g2);
    }
}

/// A withdrawal is all-or-nothing: every failure — a bad proof, a zero
/// claim, a failed payout — leaves the account exactly as it was, and the
/// balance is reset to the zero sentinel precisely when the payout
/// succeeded.  In particular the claim is never destroyed before the payout.
pub proof fn lemma_withdraw_all_or_nothing(
    account: DacAccount,
    caller: u64,
    plaintext_amount: Seq<u8>,
    env: WithdrawEnv,
)
    ensures
        ({
            let (updated, res, calls) = withdraw_spec(account, caller, plaintext_amount, env);
            &&& res is Err ==> updated == account
            &&& res is Ok ==> updated == (DacAccount {
                balance_handle: SENTINEL_HANDLE,
                ..account
            })
            &&& res is Ok <==> (account_authorize_spec(account, caller) is Ok && env.proof_ok
                && decode_plaintext(plaintext_amount) != 0 && env.custody_ok)
        }),
{
}

/// A withdrawal whose verified claim decodes to exactly zero is refused
/// with `ZeroAmount` before any custody call: the trace holds the proof
/// verification and nothing else.
pub proof fn lemma_withdraw_zero_amount(
    account: DacAccount,
    caller: u64,
    plaintext_amount: Seq<u8>,
    env: WithdrawEnv,
)
    requires
        account_authorize_spec(account, caller) is Ok,
        env.proof_ok,
        decode_plaintext(plaintext_amount) == 0,
    ensures
        ({
            let (updated, res, calls) = withdraw_spec(account, caller, plaintext_amount, env);
            &&& res == Err::<u64, DacError>(DacError::ZeroAmount)
            &&& updated == account
            &&& calls =~= seq![ServiceCall::VerifyProof]
            &&& forall|i: int|
                0 <= i < calls.len() ==> !((#[trigger] calls[i]) is MoveFromVault) && !(calls[i]
                    is MoveToVault)
        }),
{
}

/// A deposit that fails — for whatever reason, before or after the custody
/// movement — never touches the account record: the encrypted balance
/// changes only on full success.
pub proof fn lemma_failed_deposit_leaves_account(
    account: DacAccount,
    caller: u64,
    usdc_amount: u64,
    env: DepositEnv,
)
    ensures
        deposit_spec(account, caller, usdc_amount, env).1 is Err ==> deposit_spec(
            account,
            caller,
            usdc_amount,
            env,
        ).0 == account,
{
}

/// A transfer that fails never touches either account record: the debit and
/// the credit are committed only on full success, and a failure before the
/// debit prevents the credit.
pub proof fn lemma_failed_transfer_leaves_accounts(
    source: DacAccount,
    destination: DacAccount,
    caller: u64,
    env: TransferEnv,
)
    ensures
        ({
            let (new_source, new_destination, res, calls) = transfer_spec(
                source,
                destination,
                caller,
                env,
            );
            res is Err ==> new_source == source && new_destination == destination
                && forall|i: int|
                    0 <= i < calls.len() ==> !((#[trigger] calls[i]) is EncSub) && !(calls[i]
                        is EncAdd)
        }),
{
}

/// Ownership is enforced on a deposit before anything external runs: a
/// caller other than the account owner is refused with `NotOwner`, the
/// account is untouched and the call trace is empty.
pub proof fn lemma_deposit_requires_owner(
    account: DacAccount,
    caller: u64,
    usdc_amount: u64,
    env: DepositEnv,
)
    requires
        caller != account.owner,
    ensures
        deposit_spec(account, caller, usdc_amount, env) == (
            account,
            Err::<GrantStatus, DacError>(DacError::NotOwner),
            Seq::<ServiceCall>::empty(),
        ),
{
}

/// Ownership is enforced on a transfer before anything external runs: a
/// caller other than the source owner is refused with `NotOwner`, both
/// accounts are untouched and the call trace is empty.
pub proof fn lemma_transfer_requires_owner(
    source: DacAccount,
    destination: DacAccount,
    caller: u64,
    env: TransferEnv,
)
    requires
        caller != source.owner,
    ensures
        transfer_spec(source, destination, caller, env) == (
            source,
            destination,
            Err::<(GrantStatus, GrantStatus), DacError>(DacError::NotOwner),
            Seq::<ServiceCall>::empty(),
        ),
{
}

/// Ownership is enforced on a withdrawal before anything external runs: a
/// caller other than the account owner is refused with `NotOwner`, the
/// account is untouched and the call trace is empty.
pub proof fn lemma_withdraw_requires_owner(
    account: DacAccount,
    caller: u64,
    plaintext_amount: Seq<u8>,
    env: WithdrawEnv,
)
    requires
        caller != account.owner,
    ensures
        withdraw_spec(account, caller, plaintext_amount, env) == (
            account,
            Err::<u64, DacError>(DacError::NotOwner),
            Seq::<ServiceCall>::empty(),
        ),
{
}

} // verus!
