//! The interface to the two external collaborators, as the ledger sees it.
//!
//! The encrypted-value engine and the asset-custody service are invoked by
//! the surrounding runtime, never by this library.  Each reply enters an
//! operation as a plain value through one of the environment records below,
//! and each operation returns, beside its result, the exact trace of calls
//! it made, so the orchestration order is part of its contract.

use vstd::prelude::*;

verus! {

/// One call into an external collaborator, in the order the operations
/// record them.  No plaintext balance ever appears in a trace: amounts occur
/// only where the caller already supplied them in the clear (custody
/// movements of the backing asset).
#[derive(Clone, Copy, Debug, PartialEq, Eq, Structural)]
pub enum ServiceCall {
    /// Custody: move `amount` of the backing asset from the holder to the vault.
    MoveToVault { amount: u64 },
    /// Engine: materialize a handle for caller-supplied ciphertext.
    Materialize,
    /// Engine: homomorphic addition of the hidden values behind two handles.
    EncAdd { lhs: u128, rhs: u128 },
    /// Engine: homomorphic subtraction of `rhs`'s hidden value from `lhs`'s.
    EncSub { lhs: u128, rhs: u128 },
    /// Engine: grant `grantee` decryption rights on `handle`.
    GrantAccess { handle: u128, grantee: u64 },
    /// Engine: verify a decryption proof for a claimed handle and plaintext.
    VerifyProof,
    /// Custody: release `amount` from the vault to the holder, under the
    /// registry's vault authority.
    MoveFromVault { amount: u64 },
}

/// The collaborators' replies to the calls a deposit can reach.  A field is
/// read only when the corresponding call is actually made; nothing is
/// assumed about a reply beyond its value.
#[derive(Clone, Copy, Debug)]
pub struct DepositEnv {
    /// Did the custody service move the deposit into the vault?
    pub custody_ok: bool,
    /// The handle materialized for the supplied ciphertext, or `None` when
    /// the engine rejected the ciphertext as malformed.
    pub materialized: Option<u128>,
    /// The handle the engine returned for the encrypted addition.
    pub add_result: u128,
    /// Whether the caller asked for a decryption-access grant at all.
    pub grant_requested: bool,
    /// Did the engine record the grant?
    pub grant_ok: bool,
}

/// The collaborators' replies to the calls a transfer can reach.
#[derive(Clone, Copy, Debug)]
pub struct TransferEnv {
    /// The handle materialized for the supplied ciphertext, or `None` when
    /// the engine rejected the ciphertext as malformed.
    pub materialized: Option<u128>,
    /// The handle the engine returned for the encrypted subtraction.
    pub sub_result: u128,
    /// The handle the engine returned for the encrypted addition.
    pub add_result: u128,
    /// Whether the caller asked for decryption-access grants at all.
    pub grants_requested: bool,
    /// Did the engine record the grant on the source's new balance?
    pub grant_source_ok: bool,
    /// Did the engine record the grant on the destination's new balance?
    pub grant_dest_ok: bool,
}

/// The collaborators' replies to the calls a withdrawal can reach.
#[derive(Clone, Copy, Debug)]
pub struct WithdrawEnv {
    /// Did the decryption proof verify against the claimed handle?
    pub proof_ok: bool,
    /// Did the custody service release the payout from the vault?
    pub custody_ok: bool,
}

/// How many encrypted additions a trace requests.
pub open spec fn num_enc_adds(calls: Seq<ServiceCall>) -> nat
    decreases calls.len(),
{
    if calls.len() == 0 {
        0
    } else {
        num_enc_adds(calls.drop_last()) + (if calls.last() is EncAdd {
            1nat
        } else {
            0nat
        })
    }
}

/// How many encrypted subtractions a trace requests.
pub open spec fn num_enc_subs(calls: Seq<ServiceCall>) -> nat
    decreases calls.len(),
{
    if calls.len() == 0 {
        0
    } else {
        num_enc_subs(calls.drop_last()) + (if calls.last() is EncSub {
            1nat
        } else {
            0nat
        })
    }
}

pub proof fn lemma_num_enc_adds_push(calls: Seq<ServiceCall>, call: ServiceCall)
    ensures
        num_enc_adds(calls.push(call)) == num_enc_adds(calls) + (if call is EncAdd {
            1nat
        } else {
            0nat
        }),
{
    assert(calls.push(call).drop_last() =~= calls);
}

pub proof fn lemma_num_enc_subs_push(calls: Seq<ServiceCall>, call: ServiceCall)
    ensures
        num_enc_subs(calls.push(call)) == num_enc_subs(calls) + (if call is EncSub {
            1nat
        } else {
            0nat
        }),
{
    assert(calls.push(call).drop_last() =~= calls);
}

} // verus!
