//! Failure kinds surfaced to the caller.

use vstd::prelude::*;

verus! {

/// Every way a call can fail. A failing call performs no mutation; the
/// specific kind tells the caller which precondition was violated.
#[derive(Clone, Copy, Debug, PartialEq, Eq, Structural)]
pub enum CustomError {
    /// The declared decimal count differs from the fixed mint precision.
    InvalidDecimals,
    /// A supplied record does not belong to the expected token.
    MintMismatch,
    /// A subtraction would fall below zero.
    Underflow,
    /// An addition or multiplication would exceed the 64-bit range.
    Overflow,
    /// A contribution of zero, or an empty ledger where value is required.
    InvalidAmount,
    /// The token has already gone through its bonding transition.
    HasBonded,
    /// The token has not yet gone through its bonding transition.
    NotBonded,
    /// A derived record address could not be reproduced.
    InvalidBump,
    /// The presented treasury identity is not the configured operator.
    Unauthorized,
    /// A record could not be encoded.
    SerializationError,
    /// A record could not be decoded.
    DeserializationError,
    /// An expected custody record is missing.
    TokenAccountNotFound,
}

} // verus!
