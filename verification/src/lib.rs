//! Accounting engine for a token whose distribution passes through two
//! economic phases before it trades freely on an external venue: an open
//! pre-listing sale paid in native currency, and a post-listing vesting
//! schedule paid out in token units.
//!
//! The crate is the authoritative ledger. It tracks, per token and per
//! participant, how much value has been committed, converts the committed
//! native-currency contributions into token allocations at the moment of the
//! bonding transition, and releases allocations gradually afterward. Every
//! state-changing operation is gated on a single configured operator
//! identity and reports the value transfer the host must perform; the host
//! is responsible for executing that transfer and for keeping each call
//! atomic.

pub mod accounts;
pub mod engine;
pub mod errors;
pub mod identity;
pub mod laws;
