//! What holds of the operations, whatever the accounts and arguments.
//!
//! Each law is stated over the outcome of an operation, which is what the
//! operation's contract promises of every call.

use crate::account::EscrowAccount;
use crate::context::CancelEscrow;
use crate::context::CompleteSwap;
use crate::context::CreateEscrow;
use crate::context::FundEscrow;
use crate::context::RefundAfterExpiry;
use crate::engine::cancel_outcome;
use crate::engine::complete_outcome;
use crate::engine::create_outcome;
use crate::engine::fund_outcome;
use crate::engine::refund_outcome;
use crate::error::EscrowError;
use crate::error::Failure;
use crate::events::EscrowCancelled;
use crate::events::EscrowCompleted;
use crate::events::EscrowCreated;
use crate::events::EscrowFunded;
use crate::events::EscrowRefunded;
use crate::identity::Identity;
use vstd::prelude::*;

verus! {

/// An operation that fails changes nothing: neither a balance nor the
/// record.
pub proof fn failure_changes_nothing(
    create: CreateEscrow,
    identity: Option<(Identity, u8)>,
    escrow_id: u64,
    amount_a: u64,
    amount_b_expected: u64,
    expiry_ts: i64,
    taker_pubkey: Identity,
    fund: FundEscrow,
    complete: CompleteSwap,
    cancel: CancelEscrow,
    refund: RefundAfterExpiry,
    now: i64,
)
    ensures
        ({
            let (after, result) = create_outcome(
                create,
                identity,
                escrow_id,
                amount_a,
                amount_b_expected,
                expiry_ts,
                taker_pubkey,
                now,
            );
            result is Err ==> after == create
        }),
        fund_outcome(fund, now).1 is Err ==> fund_outcome(fund, now).0 == fund,
        complete_outcome(complete, now).1 is Err ==> complete_outcome(complete, now).0 == complete,
        cancel_outcome(cancel, now).1 is Err ==> cancel_outcome(cancel, now).0 == cancel,
        refund_outcome(refund, now).1 is Err ==> refund_outcome(refund, now).0 == refund,
{
}

/// No operation creates or destroys value: the balances of the accounts
/// of a call add up to the same before and after it. What the vault holds
/// beyond the deposits of its record stays as it is.
pub proof fn every_operation_conserves_value(
    create: CreateEscrow,
    identity: Option<(Identity, u8)>,
    escrow_id: u64,
    amount_a: u64,
    amount_b_expected: u64,
    expiry_ts: i64,
    taker_pubkey: Identity,
    fund: FundEscrow,
    complete: CompleteSwap,
    cancel: CancelEscrow,
    refund: RefundAfterExpiry,
    now: i64,
)
    ensures
        ({
            let after = create_outcome(
                create,
                identity,
                escrow_id,
                amount_a,
                amount_b_expected,
                expiry_ts,
                taker_pubkey,
                now,
            ).0;
            &&& after.escrow.lamports + after.maker.lamports == create.escrow.lamports
                + create.maker.lamports
            &&& after.escrow.reserve() == create.escrow.reserve()
        }),
        ({
            let after = fund_outcome(fund, now).0;
            &&& after.escrow.lamports + after.taker.lamports == fund.escrow.lamports
                + fund.taker.lamports
            &&& after.escrow.reserve() == fund.escrow.reserve()
        }),
        ({
            let after = complete_outcome(complete, now).0;
            &&& after.escrow.lamports + after.taker.lamports + after.maker.lamports
                == complete.escrow.lamports + complete.taker.lamports + complete.maker.lamports
            &&& after.escrow.reserve() == complete.escrow.reserve()
        }),
        ({
            let after = cancel_outcome(cancel, now).0;
            &&& after.escrow.lamports + after.maker.lamports == cancel.escrow.lamports
                + cancel.maker.lamports
            &&& after.escrow.reserve() == cancel.escrow.reserve()
        }),
        ({
            let after = refund_outcome(refund, now).0;
            &&& after.escrow.lamports + after.maker.lamports == refund.escrow.lamports
                + refund.maker.lamports
            &&& after.escrow.reserve() == refund.escrow.reserve()
        }),
{
}

/// A vault that holds what it owes, with a well-formed record or none,
/// is still so after any operation.
pub proof fn every_operation_keeps_the_vault_well_formed(
    create: CreateEscrow,
    identity: Option<(Identity, u8)>,
    escrow_id: u64,
    amount_a: u64,
    amount_b_expected: u64,
    expiry_ts: i64,
    taker_pubkey: Identity,
    fund: FundEscrow,
    complete: CompleteSwap,
    cancel: CancelEscrow,
    refund: RefundAfterExpiry,
    now: i64,
)
    ensures
        create.escrow.well_formed() ==> create_outcome(
            create,
            identity,
            escrow_id,
            amount_a,
            amount_b_expected,
            expiry_ts,
            taker_pubkey,
            now,
        ).0.escrow.well_formed(),
        fund.escrow.well_formed() ==> fund_outcome(fund, now).0.escrow.well_formed(),
        complete.escrow.well_formed() ==> complete_outcome(complete, now).0.escrow.well_formed(),
        cancel.escrow.well_formed() ==> cancel_outcome(cancel, now).0.escrow.well_formed(),
        refund.escrow.well_formed() ==> refund_outcome(refund, now).0.escrow.well_formed(),
{
}

/// The terms of a record never change once it exists: its maker, its
/// sequence number, the two amounts, the expiry and the nonce. While the
/// record is active, neither does the taker.
pub proof fn the_terms_of_a_record_are_fixed(
    record: EscrowAccount,
    fund: FundEscrow,
    complete: CompleteSwap,
    cancel: CancelEscrow,
    refund: RefundAfterExpiry,
    now: i64,
)
    requires
        fund.escrow.data == Some(record),
        complete.escrow.data == Some(record),
        cancel.escrow.data == Some(record),
        refund.escrow.data == Some(record),
    ensures
        ({
            let after = fund_outcome(fund, now).0.escrow.data;
            after is Some && after->Some_0.same_terms(record) && after->Some_0.taker
                == record.taker
        }),
        ({
            let after = complete_outcome(complete, now).0.escrow.data;
            after is Some && after->Some_0.same_terms(record) && (after->Some_0.is_active
                ==> after->Some_0.taker == record.taker)
        }),
        ({
            let after = cancel_outcome(cancel, now).0.escrow.data;
            after is Some && after->Some_0.same_terms(record) && after->Some_0.taker
                == record.taker
        }),
        ({
            let after = refund_outcome(refund, now).0.escrow.data;
            after is Some && after->Some_0.same_terms(record) && after->Some_0.taker
                == record.taker
        }),
{
}

/// An offer cannot be accepted twice: once an acceptance has taken
/// effect, every further one on the same vault fails with
/// `AlreadyFunded`, whoever calls and whenever.
pub proof fn no_double_funding(first: FundEscrow, now: i64, second: FundEscrow, later: i64)
    requires
        fund_outcome(first, now).1 is Ok,
        second.escrow == fund_outcome(first, now).0.escrow,
    ensures
        fund_outcome(second, later) == (
            second,
            Err::<EscrowFunded, Failure>(Failure::Rule(EscrowError::AlreadyFunded)),
        ),
{
}

/// No deposit is reclaimed before the expiry has passed: while `now` is
/// not after the expiry of the record, reclaiming fails. Where the caller
/// is the maker of an active, unfunded record, it fails with `NotExpired`.
pub proof fn no_refund_before_expiry(ctx: RefundAfterExpiry, record: EscrowAccount, now: i64)
    requires
        ctx.escrow.data == Some(record),
        now <= record.expiry_ts,
    ensures
        refund_outcome(ctx, now).1 is Err,
        refund_outcome(ctx, now).0 == ctx,
        ctx.maker.key == record.maker && record.is_active && !record.is_funded ==> refund_outcome(
            ctx,
            now,
        ).1 == Err::<EscrowRefunded, Failure>(Failure::Rule(EscrowError::NotExpired)),
{
}

/// The swap, a withdrawal and a reclaim each end the escrow: where one
/// takes effect, the record is no longer active afterwards. Of the three
/// only the swap leaves a well-formed record completed.
pub proof fn a_payout_ends_the_escrow(
    complete: CompleteSwap,
    cancel: CancelEscrow,
    refund: RefundAfterExpiry,
    now: i64,
)
    ensures
        complete_outcome(complete, now).1 is Ok ==> {
            let after = complete_outcome(complete, now).0.escrow.data;
            after is Some && after->Some_0.is_terminal() && after->Some_0.is_completed
        },
        cancel_outcome(cancel, now).1 is Ok ==> {
            let after = cancel_outcome(cancel, now).0.escrow.data;
            &&& after is Some
            &&& after->Some_0.is_terminal()
            &&& cancel.escrow.well_formed() ==> !after->Some_0.is_completed
        },
        refund_outcome(refund, now).1 is Ok ==> {
            let after = refund_outcome(refund, now).0.escrow.data;
            &&& after is Some
            &&& after->Some_0.is_terminal()
            &&& refund.escrow.well_formed() ==> !after->Some_0.is_completed
        },
{
}

/// An escrow that has ended stays ended: on a record that is no longer
/// active each of the five operations fails and changes nothing.
///
/// Opening, accepting and the swap fail with `NotActive`. A withdrawal
/// and a reclaim ask first who calls: they fail with `NotActive` for the
/// maker and with `Unauthorized` for anyone else.
pub proof fn an_ended_escrow_stays_ended(
    record: EscrowAccount,
    create: CreateEscrow,
    identity: Option<(Identity, u8)>,
    escrow_id: u64,
    amount_a: u64,
    amount_b_expected: u64,
    expiry_ts: i64,
    taker_pubkey: Identity,
    fund: FundEscrow,
    complete: CompleteSwap,
    cancel: CancelEscrow,
    refund: RefundAfterExpiry,
    now: i64,
)
    requires
        record.is_terminal(),
        create.escrow.data == Some(record),
        fund.escrow.data == Some(record),
        complete.escrow.data == Some(record),
        cancel.escrow.data == Some(record),
        refund.escrow.data == Some(record),
    ensures
        create_outcome(
            create,
            identity,
            escrow_id,
            amount_a,
            amount_b_expected,
            expiry_ts,
            taker_pubkey,
            now,
        ) == (create, Err::<EscrowCreated, Failure>(Failure::Rule(EscrowError::NotActive))),
        fund_outcome(fund, now) == (
            fund,
            Err::<EscrowFunded, Failure>(Failure::Rule(EscrowError::NotActive)),
        ),
        complete_outcome(complete, now) == (
            complete,
            Err::<EscrowCompleted, Failure>(Failure::Rule(EscrowError::NotActive)),
        ),
        cancel_outcome(cancel, now) == (
            cancel,
            Err::<EscrowCancelled, Failure>(
                Failure::Rule(
                    if cancel.maker.key == record.maker {
                        EscrowError::NotActive
                    } else {
                        EscrowError::Unauthorized
                    },
                ),
            ),
        ),
        refund_outcome(refund, now) == (
            refund,
            Err::<EscrowRefunded, Failure>(
                Failure::Rule(
                    if refund.maker.key == record.maker {
                        EscrowError::NotActive
                    } else {
                        EscrowError::Unauthorized
                    },
                ),
            ),
        ),
{
}

/// Only the taker that the record names can have the swap carried out:
/// for any other caller it fails and changes nothing. On a record that is
/// active and funded it fails with `Unauthorized`.
pub proof fn only_the_taker_settles(ctx: CompleteSwap, record: EscrowAccount, now: i64)
    requires
        ctx.escrow.data == Some(record),
        record.taker != Some(ctx.taker.key),
    ensures
        complete_outcome(ctx, now).1 is Err,
        complete_outcome(ctx, now).0 == ctx,
        record.is_active && record.is_funded && record.taker is Some ==> complete_outcome(
            ctx,
            now,
        ).1 == Err::<EscrowCompleted, Failure>(Failure::Rule(EscrowError::Unauthorized)),
{
}

} // verus!
