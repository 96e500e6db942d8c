//! The accounts that each operation works on.

use crate::account::EscrowVault;
use crate::account::Wallet;
use crate::identity::Identity;
use vstd::prelude::*;

verus! {

/// The accounts of `create_escrow`.
#[derive(Clone, Copy, Debug, PartialEq, Eq)]
pub struct CreateEscrow {
    /// The program under which the record's identity is derived.
    pub program_id: Identity,
    /// The vault in which the record is created.
    pub escrow: EscrowVault,
    /// The caller: the maker, who pays the first deposit.
    pub maker: Wallet,
}

/// The accounts of `fund_escrow`.
#[derive(Clone, Copy, Debug, PartialEq, Eq)]
pub struct FundEscrow {
    pub escrow: EscrowVault,
    /// The caller: the taker, who pays the second deposit.
    pub taker: Wallet,
}

/// The accounts of `complete_swap`.
#[derive(Clone, Copy, Debug, PartialEq, Eq)]
pub struct CompleteSwap {
    pub escrow: EscrowVault,
    /// The caller: the taker, who is paid the maker's deposit.
    pub taker: Wallet,
    /// The maker, who is paid the taker's deposit.
    pub maker: Wallet,
}

/// The accounts of `cancel_escrow`.
#[derive(Clone, Copy, Debug, PartialEq, Eq)]
pub struct CancelEscrow {
    pub escrow: EscrowVault,
    /// The caller: the maker, who is paid back.
    pub maker: Wallet,
}

/// The accounts of `refund_after_expiry`.
#[derive(Clone, Copy, Debug, PartialEq, Eq)]
pub struct RefundAfterExpiry {
    pub escrow: EscrowVault,
    /// The caller: the maker, who is paid back.
    pub maker: Wallet,
}

} // verus!
