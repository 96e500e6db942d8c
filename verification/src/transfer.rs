//! Moving value between two balances.
//!
//! Every unit that enters or leaves an escrow goes through `transfer`.
//! A transfer either moves the whole amount or changes nothing, and the
//! sum of the two balances is the same before and after.

use crate::error::Failure;
use vstd::prelude::*;

verus! {

/// Why `amount` cannot be moved from a balance of `from` to a balance of
/// `to`, or `None` where it can.
pub open spec fn transfer_refusal(from: u64, to: u64, amount: u64) -> Option<Failure> {
    if from < amount {
        Some(Failure::InsufficientFunds)
    } else if to + amount > u64::MAX {
        Some(Failure::BalanceOverflow)
    } else {
        None
    }
}

/// Debits `amount` from `from` and credits it to `to`.
///
/// Fails, and changes neither balance, where `from` holds less than
/// `amount` or `to` cannot hold `amount` more.
pub fn transfer(from: &mut u64, to: &mut u64, amount: u64) -> (r: Result<(), Failure>)
    ensures
        match transfer_refusal(*old(from), *old(to), amount) {
            Some(failure) => {
                &&& r == Err::<(), Failure>(failure)
                &&& *final(from) == *old(from)
                &&& *final(to) == *old(to)
            },
            None => {
                &&& r is Ok
                &&& *final(from) == *old(from) - amount
                &&& *final(to) == *old(to) + amount
            },
        },
        *final(from) + *final(to) == *old(from) + *old(to),
{
    if *from < amount {
        return Err(Failure::InsufficientFunds);
    }
    match to.checked_add(amount) {
        None => Err(Failure::BalanceOverflow),
        Some(credited) => {
            *from = *from - amount;
            *to = credited;
            Ok(())
        },
    }
}

} // verus!
