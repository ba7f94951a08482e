//! Packaging of build artifacts for a shared object store.
//!
//! An artifact is archived, compressed and stored under a key that is
//! derived from its identity and from a digest of the compressed payload.
//! It is found again by listing the keys under the prefix of that identity.
//! This crate holds the rules of that protocol: the key scheme, the codec,
//! the digest and the order of the steps of an upload and of a download.
//! It performs no input or output itself.

pub mod cli;
pub mod codec;
pub mod digest;
pub mod error;
pub mod hex;
pub mod key;
pub mod listing;
pub mod run;
pub mod transfer;
