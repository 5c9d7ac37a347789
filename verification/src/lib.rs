//! Building blocks for a small ledger front end: decoding account keys and key
//! pairs from text, signing and verifying messages, and constructing the
//! unsigned instructions for native transfers and token operations.
//!
//! Cryptography, text encodings and the instruction constructors come from the
//! ledger's own crates; every call into them is a small function whose doc
//! comment says what is taken on trust. Everything around those calls is
//! verified.

pub mod builder;
mod bytes;
pub mod codec;
pub mod error;
pub mod handlers;
pub mod instruction;
pub mod keys;
pub mod layout;
pub mod models;
pub mod response;
pub mod signature;
