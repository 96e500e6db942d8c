//! The audit events. Every operation that takes effect returns one; none
//! of them is ever read to make a decision.

use crate::identity::Identity;
use vstd::prelude::*;

verus! {

/// An escrow was opened and the maker's deposit taken.
#[derive(Clone, Copy, Debug, PartialEq, Eq)]
pub struct EscrowCreated {
    pub escrow: Identity,
    pub maker: Identity,
    pub escrow_id: u64,
    pub amount_a: u64,
    pub amount_b_expected: u64,
    pub expiry_ts: i64,
    pub ts: i64,
}

/// The taker accepted the offer and deposited.
#[derive(Clone, Copy, Debug, PartialEq, Eq)]
pub struct EscrowFunded {
    pub escrow: Identity,
    pub taker: Identity,
    pub amount_b: u64,
    pub ts: i64,
}

/// The swap was carried out: each party was paid the other's deposit.
#[derive(Clone, Copy, Debug, PartialEq, Eq)]
pub struct EscrowCompleted {
    pub escrow: Identity,
    pub maker: Identity,
    pub taker: Identity,
    pub ts: i64,
}

/// The maker withdrew the offer before anyone accepted it.
#[derive(Clone, Copy, Debug, PartialEq, Eq)]
pub struct EscrowCancelled {
    pub escrow: Identity,
    pub maker: Identity,
    pub ts: i64,
}

/// The maker reclaimed the deposit of an offer that expired unaccepted.
#[derive(Clone, Copy, Debug, PartialEq, Eq)]
pub struct EscrowRefunded {
    pub escrow: Identity,
    pub maker: Identity,
    pub ts: i64,
}

} // verus!
