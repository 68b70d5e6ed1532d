//! Confidential-balance ledger core.
//!
//! A holder deposits a backing asset and receives an encrypted balance: an
//! opaque 128-bit handle into an external homomorphic-encryption engine.  The
//! ledger never sees a plaintext balance; it orchestrates encrypted addition
//! and subtraction over handles, and releases the backing asset only after the
//! engine has verified a decryption proof.
//!
//! The two collaborators — the encrypted-value engine and the asset-custody
//! service — live outside this crate.  Every reply of theirs enters the
//! library as a plain value (a fresh handle, a success flag), and every
//! operation returns, beside its result, the exact sequence of service calls
//! it made, so that the orchestration itself is stated and proved here.

pub mod codec;
pub mod errors;
pub mod laws;
pub mod ops;
pub mod service;
pub mod state;
