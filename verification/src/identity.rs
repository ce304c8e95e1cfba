//! Opaque account identities.

use vstd::prelude::*;

verus! {

/// A 256-bit account identity, held as four 64-bit words.
///
/// The ledger never looks inside an identity; it only compares identities
/// for equality, to gate privileged calls on the configured operator and to
/// match participant records against their token.
#[derive(Clone, Copy, Debug, PartialEq, Eq, Structural)]
pub struct Identity {
    pub w0: u64,
    pub w1: u64,
    pub w2: u64,
    pub w3: u64,
}

} // verus!
