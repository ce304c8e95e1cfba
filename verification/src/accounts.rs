//! The two ledger record types and the descriptive token parameters.

use vstd::prelude::*;

use crate::identity::Identity;

verus! {

/// Descriptive parameters supplied when a token is issued.
#[derive(Clone, Debug)]
pub struct InitTokenParams {
    pub symbol: String,
    pub name: String,
    pub uri: String,
    pub decimals: u8,
}

/// The descriptive record that the host registers with the token-unit
/// subsystem for a freshly issued token. The royalty share is always zero;
/// issuance never grants the issuer a fee.
#[derive(Clone, Debug)]
pub struct TokenMetadata {
    pub symbol: String,
    pub name: String,
    pub uri: String,
    pub seller_fee_basis_points: u16,
}

/// The token-level ledger record: one per issued token.
///
/// `locked_amount` has a phase-dependent unit: before the bonding transition
/// it is the aggregate of native-currency contributions; after the
/// transition it is the aggregate token-unit allocation. It is one field on
/// purpose, reinterpreted across the transition.
#[derive(Clone, Copy, Debug)]
pub struct MemeAccount {
    /// The identity that requested issuance. Informational only; it carries
    /// no authorization.
    pub dev: Identity,
    /// The identity of the underlying token unit.
    pub mint: Identity,
    /// Aggregate committed value: native currency before bonding, token
    /// units after.
    pub locked_amount: u64,
    /// When the record was created; never negative once created.
    pub creation_time: i64,
    /// When the bonding transition ran; negative while the token has not
    /// bonded yet.
    pub bonded_time: i64,
    /// The external venue's pool identifier; present exactly when bonded.
    pub pool_id: Option<Identity>,
}

impl MemeAccount {
    /// The phase-marker invariant: the creation timestamp is set, and the
    /// venue identifier is absent precisely while the token has not bonded.
    /// Every operation that creates or mutates a token ledger record
    /// establishes or preserves this.
    pub open spec fn wf(self) -> bool {
        &&& self.creation_time >= 0
        &&& (self.bonded_time < 0 <==> self.pool_id is None)
    }

    /// Whether the bonding transition has already run for this token.
    pub open spec fn has_bonded(self) -> bool {
        self.bonded_time >= 0
    }
}

/// The participant-level ledger record: one per (token, participant) pair,
/// created lazily on the participant's first contribution.
///
/// `locked_amount` carries the same phase-dependent unit as the token-level
/// field.
#[derive(Clone, Copy, Debug)]
pub struct UserAccount {
    /// The contributing participant.
    pub user: Identity,
    /// Back-reference to the token this record belongs to.
    pub mint: Identity,
    /// This participant's committed value.
    pub locked_amount: u64,
}

} // verus!
