//! A sandboxed path-resolution and file-operation engine, with a set of
//! small encoding, digest, cipher and random-value utilities around it.
//!
//! The heart of the crate is the path subsystem: raw, caller-supplied path
//! strings are resolved against a single confinement root, component by
//! component, and every resolved path is proven to stay inside that root.
//! Filesystem probes and mutations are performed by the caller, which drives
//! the verified state machines in this crate with the events it observed;
//! every decision, between two probes, is made and verified here.

pub mod aes_ops;
pub mod base32;
pub mod batch;
pub mod ciphers;
pub mod digests;
pub mod encodings;
pub mod errors;
pub mod ops;
pub mod paths;
pub mod plan;
pub mod random_values;
pub mod rsa_ops;
pub mod text;

use vstd::prelude::*;

verus! {

/// The batch engine hands results back either as one scalar or as a list,
/// depending on how many work items the call supplied.
#[derive(Debug, PartialEq, Eq)]
pub enum BatchResult<T> {
    Single(T),
    List(Vec<T>),
}

} // verus!
