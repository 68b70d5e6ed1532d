//! The error taxonomy of the ledger.
//!
//! Every failure of an operation is reported as one of these named
//! conditions; no operation silently does nothing.

use vstd::prelude::*;

verus! {

/// Why a ledger operation refused to run or stopped part-way.
#[derive(Clone, Copy, Debug, PartialEq, Eq, Structural)]
pub enum DacError {
    /// The registry record has not been initialized yet.
    UninitializedMint,
    /// The account is not in the `Initialized` lifecycle state.
    AccountNotInitialized,
    /// The caller is not the owner of the account being debited.
    NotOwner,
    /// Source and destination accounts belong to different registries.
    MintMismatch,
    /// A withdrawal claimed a plaintext amount of exactly zero.
    ZeroAmount,
    /// A claimed plaintext buffer could not be decoded.
    InvalidPlaintext,
    /// The encrypted-value engine rejected the supplied ciphertext.
    InvalidCiphertext,
    /// The asset-custody service failed to move the backing asset.
    CustodyTransferFailed,
    /// The decryption proof did not verify against the claimed handle.
    ProofVerificationFailed,
    /// A decryption-access grant was refused (never fatal to an operation).
    AccessGrantFailed,
}

} // verus!
