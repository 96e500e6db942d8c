//! Why an operation on an escrow did not take effect.

use vstd::prelude::*;

verus! {

/// The rules of the escrow that an operation can break.
///
/// `InvalidAmount` and `InvalidExpiry` reject what the caller supplied;
/// `Unauthorized` and `TakerNotSet` reject the caller; the others reject
/// the operation in the state that the record is in.
#[derive(Clone, Copy, Debug, PartialEq, Eq, Structural)]
pub enum EscrowError {
    /// An amount is zero.
    InvalidAmount,
    /// The expiry is not after the current time.
    InvalidExpiry,
    /// The record is not active: it was never opened, or it was completed,
    /// cancelled or refunded.
    NotActive,
    /// The taker has already deposited.
    AlreadyFunded,
    /// The taker has not deposited yet.
    NotFunded,
    /// The caller is not the party that may do this.
    Unauthorized,
    /// The record names no taker.
    TakerNotSet,
    /// The expiry has not passed yet.
    NotExpired,
    /// The expiry has been reached.
    EscrowExpired,
}

/// Why an operation failed. A failed operation changes nothing.
#[derive(Clone, Copy, Debug, PartialEq, Eq, Structural)]
pub enum Failure {
    /// A rule of the escrow refused the operation.
    Rule(EscrowError),
    /// The slot already holds a record that is still active.
    RecordExists,
    /// No identity can be derived for the record.
    NoIdentity,
    /// The account that is to be paid is not the one the record names.
    WrongAccount,
    /// The paying balance holds less than the amount to move.
    InsufficientFunds,
    /// The receiving balance cannot hold the amount on top of its own.
    BalanceOverflow,
}

impl EscrowError {
    /// The text of the message, as a sequence of characters.
    pub open spec fn text(self) -> Seq<char> {
        match self {
            EscrowError::InvalidAmount => "Invalid zero amount"@,
            EscrowError::InvalidExpiry => "Invalid expiry timestamp"@,
            EscrowError::NotActive => "Escrow is not active"@,
            EscrowError::AlreadyFunded => "Escrow is already funded"@,
            EscrowError::NotFunded => "Escrow is not funded yet"@,
            EscrowError::Unauthorized => "Only taker can call this"@,
            EscrowError::TakerNotSet => "Taker not set"@,
            EscrowError::NotExpired => "Escrow has not expired yet"@,
            EscrowError::EscrowExpired => "Escrow has expired and cannot be funded"@,
        }
    }

    /// The message shown to the caller for this error.
    pub fn message(&self) -> (m: &'static str)
        ensures
            m@ == self.text(),
    {
        match self {
            EscrowError::InvalidAmount => "Invalid zero amount",
            EscrowError::InvalidExpiry => "Invalid expiry timestamp",
            EscrowError::NotActive => "Escrow is not active",
            EscrowError::AlreadyFunded => "Escrow is already funded",
            EscrowError::NotFunded => "Escrow is not funded yet",
            EscrowError::Unauthorized => "Only taker can call this",
            EscrowError::TakerNotSet => "Taker not set",
            EscrowError::NotExpired => "Escrow has not expired yet",
            EscrowError::EscrowExpired => "Escrow has expired and cannot be funded",
        }
    }
}

} // verus!
