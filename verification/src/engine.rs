//! The five operations on an escrow.
//!
//! Each operation checks its rules in a fixed order and fails on the first
//! that is broken. Only when every rule holds does it move value and
//! change the record. An operation that fails changes nothing.
//!
//! What an operation does is given by a spec function, its outcome: the
//! accounts after the call and the result of the call, for every value
//! of the accounts and arguments before it.

use crate::account::EscrowAccount;
use crate::account::EscrowVault;
use crate::account::Wallet;
use crate::context::CancelEscrow;
use crate::context::CompleteSwap;
use crate::context::CreateEscrow;
use crate::context::FundEscrow;
use crate::context::RefundAfterExpiry;
use crate::error::EscrowError;
use crate::error::Failure;
use crate::events::EscrowCancelled;
use crate::events::EscrowCompleted;
use crate::events::EscrowCreated;
use crate::events::EscrowFunded;
use crate::events::EscrowRefunded;
use crate::identity::derive_identity;
use crate::identity::derived_identity;
use crate::identity::Identity;
use crate::transfer::transfer;
use crate::transfer::transfer_refusal;
use vstd::prelude::*;

verus! {

/// Why no escrow with these terms can be opened in a vault that holds
/// `data`, or `None` where one can.
///
/// A vault takes one record in its life: one that holds a record refuses,
/// whatever the terms. Then both amounts must be positive, and the expiry
/// must lie after `now`.
pub open spec fn create_refusal(
    data: Option<EscrowAccount>,
    amount_a: u64,
    amount_b_expected: u64,
    expiry_ts: i64,
    now: i64,
) -> Option<Failure> {
    match data {
        Some(record) => if record.is_active {
            Some(Failure::RecordExists)
        } else {
            Some(Failure::Rule(EscrowError::NotActive))
        },
        None => if amount_a == 0 || amount_b_expected == 0 {
            Some(Failure::Rule(EscrowError::InvalidAmount))
        } else if expiry_ts <= now {
            Some(Failure::Rule(EscrowError::InvalidExpiry))
        } else {
            None
        },
    }
}

/// The record of an escrow that has just been opened: active, not funded,
/// not completed.
pub open spec fn opened(
    maker: Identity,
    taker: Identity,
    escrow_id: u64,
    amount_a: u64,
    amount_b_expected: u64,
    expiry_ts: i64,
    bump: u8,
) -> EscrowAccount {
    EscrowAccount {
        maker,
        taker: Some(taker),
        escrow_id,
        amount_a,
        amount_b_expected,
        is_funded: false,
        is_active: true,
        is_completed: false,
        expiry_ts,
        bump,
    }
}

/// What opening an escrow does, given the identity and nonce derived for
/// it (`None` where there is none).
///
/// Where nothing refuses, `amount_a` moves from the maker to the vault,
/// the vault takes the derived identity and the new record, and the event
/// reports the terms.
pub open spec fn create_outcome(
    ctx: CreateEscrow,
    identity: Option<(Identity, u8)>,
    escrow_id: u64,
    amount_a: u64,
    amount_b_expected: u64,
    expiry_ts: i64,
    taker_pubkey: Identity,
    now: i64,
) -> (CreateEscrow, Result<EscrowCreated, Failure>) {
    if let Some(failure) = create_refusal(
        ctx.escrow.data,
        amount_a,
        amount_b_expected,
        expiry_ts,
        now,
    ) {
        (ctx, Err(failure))
    } else if let Some((key, bump)) = identity {
        if let Some(failure) = transfer_refusal(ctx.maker.lamports, ctx.escrow.lamports, amount_a) {
            (ctx, Err(failure))
        } else {
            (
                CreateEscrow {
                    program_id: ctx.program_id,
                    escrow: EscrowVault {
                        key,
                        lamports: (ctx.escrow.lamports + amount_a) as u64,
                        data: Some(
                            opened(
                                ctx.maker.key,
                                taker_pubkey,
                                escrow_id,
                                amount_a,
                                amount_b_expected,
                                expiry_ts,
                                bump,
                            ),
                        ),
                    },
                    maker: Wallet {
                        key: ctx.maker.key,
                        lamports: (ctx.maker.lamports - amount_a) as u64,
                    },
                },
                Ok(
                    EscrowCreated {
                        escrow: key,
                        maker: ctx.maker.key,
                        escrow_id,
                        amount_a,
                        amount_b_expected,
                        expiry_ts,
                        ts: now,
                    },
                ),
            )
        }
    } else {
        (ctx, Err(Failure::NoIdentity))
    }
}

/// Opens an escrow under an identity that the caller has derived.
///
/// `identity` is what `derive_identity` returned for the program, the maker and
/// `escrow_id`. `now` is the current time.
pub fn open_escrow(
    ctx: &mut CreateEscrow,
    identity: Option<(Identity, u8)>,
    escrow_id: u64,
    amount_a: u64,
    amount_b_expected: u64,
    expiry_ts: i64,
    taker_pubkey: Identity,
    now: i64,
) -> (r: Result<EscrowCreated, Failure>)
    ensures
        (*final(ctx), r) == create_outcome(
            *old(ctx),
            identity,
            escrow_id,
            amount_a,
            amount_b_expected,
            expiry_ts,
            taker_pubkey,
            now,
        ),
{
    if let Some(record) = ctx.escrow.data {
        if record.is_active {
            return Err(Failure::RecordExists);
        }
        return Err(Failure::Rule(EscrowError::NotActive));
    }
    if amount_a == 0 || amount_b_expected == 0 {
        return Err(Failure::Rule(EscrowError::InvalidAmount));
    }
    if expiry_ts <= now {
        return Err(Failure::Rule(EscrowError::InvalidExpiry));
    }
    let (key, bump) = match identity {
        Some(found) => found,
        None => {
            return Err(Failure::NoIdentity);
        },
    };
    if let Err(failure) = transfer(&mut ctx.maker.lamports, &mut ctx.escrow.lamports, amount_a) {
        return Err(failure);
    }
    let maker = ctx.maker.key;
    ctx.escrow.key = key;
    ctx.escrow.data = Some(
        EscrowAccount {
            maker,
            taker: Some(taker_pubkey),
            escrow_id,
            amount_a,
            amount_b_expected,
            is_funded: false,
            is_active: true,
            is_completed: false,
            expiry_ts,
            bump,
        },
    );
    Ok(EscrowCreated { escrow: key, maker, escrow_id, amount_a, amount_b_expected, expiry_ts, ts: now })
}

/// Opens an escrow: derives the identity of the record from the program,
/// the maker and `escrow_id`, takes the maker's deposit of `amount_a` into
/// the vault, and creates the record that offers it against
/// `amount_b_expected` from `taker_pubkey` until `expiry_ts`.
///
/// `now` is the current time.
pub fn create_escrow(
    ctx: &mut CreateEscrow,
    escrow_id: u64,
    amount_a: u64,
    amount_b_expected: u64,
    expiry_ts: i64,
    taker_pubkey: Identity,
    now: i64,
) -> (r: Result<EscrowCreated, Failure>)
    ensures
        (*final(ctx), r) == create_outcome(
            *old(ctx),
            derived_identity(old(ctx).program_id, old(ctx).maker.key, escrow_id),
            escrow_id,
            amount_a,
            amount_b_expected,
            expiry_ts,
            taker_pubkey,
            now,
        ),
{
    let identity = derive_identity(&ctx.program_id, &ctx.maker.key, escrow_id);
    open_escrow(
        ctx,
        identity,
        escrow_id,
        amount_a,
        amount_b_expected,
        expiry_ts,
        taker_pubkey,
        now,
    )
}

/// Why `caller` cannot accept the offer in `data` at the time `now`, or
/// `None` where they can.
///
/// In this order: the record is active, it is not funded yet, the caller
/// is the taker it names, and `now` lies before the expiry.
pub open spec fn fund_refusal(data: Option<EscrowAccount>, caller: Identity, now: i64) -> Option<
    EscrowError,
> {
    match data {
        None => Some(EscrowError::NotActive),
        Some(record) => if !record.is_active {
            Some(EscrowError::NotActive)
        } else if record.is_funded {
            Some(EscrowError::AlreadyFunded)
        } else if record.taker != Some(caller) {
            Some(EscrowError::Unauthorized)
        } else if now >= record.expiry_ts {
            Some(EscrowError::EscrowExpired)
        } else {
            None
        },
    }
}

/// The record once `caller` has accepted and deposited.
pub open spec fn funded(record: EscrowAccount, caller: Identity) -> EscrowAccount {
    EscrowAccount { is_funded: true, taker: Some(caller), ..record }
}

/// What accepting an offer does.
///
/// Where nothing refuses, `amount_b_expected` moves from the taker to the
/// vault and the record becomes funded.
pub open spec fn fund_outcome(ctx: FundEscrow, now: i64) -> (
    FundEscrow,
    Result<EscrowFunded, Failure>,
) {
    if let Some(error) = fund_refusal(ctx.escrow.data, ctx.taker.key, now) {
        (ctx, Err(Failure::Rule(error)))
    } else {
        let record = ctx.escrow.data->Some_0;
        let amount_b = record.amount_b_expected;
        if let Some(failure) = transfer_refusal(ctx.taker.lamports, ctx.escrow.lamports, amount_b) {
            (ctx, Err(failure))
        } else {
            (
                FundEscrow {
                    escrow: EscrowVault {
                        key: ctx.escrow.key,
                        lamports: (ctx.escrow.lamports + amount_b) as u64,
                        data: Some(funded(record, ctx.taker.key)),
                    },
                    taker: Wallet {
                        key: ctx.taker.key,
                        lamports: (ctx.taker.lamports - amount_b) as u64,
                    },
                },
                Ok(
                    EscrowFunded {
                        escrow: ctx.escrow.key,
                        taker: ctx.taker.key,
                        amount_b,
                        ts: now,
                    },
                ),
            )
        }
    }
}

/// Accepts an offer: the caller, who must be the taker that the record
/// names, deposits `amount_b_expected` into the vault.
///
/// `now` is the current time.
pub fn fund_escrow(ctx: &mut FundEscrow, now: i64) -> (r: Result<EscrowFunded, Failure>)
    ensures
        (*final(ctx), r) == fund_outcome(*old(ctx), now),
{
    let record = match ctx.escrow.data {
        Some(record) => record,
        None => {
            return Err(Failure::Rule(EscrowError::NotActive));
        },
    };
    if !record.is_active {
        return Err(Failure::Rule(EscrowError::NotActive));
    }
    if record.is_funded {
        return Err(Failure::Rule(EscrowError::AlreadyFunded));
    }
    if record.taker != Some(ctx.taker.key) {
        return Err(Failure::Rule(EscrowError::Unauthorized));
    }
    if now >= record.expiry_ts {
        return Err(Failure::Rule(EscrowError::EscrowExpired));
    }
    let amount_b = record.amount_b_expected;
    if let Err(failure) = transfer(&mut ctx.taker.lamports, &mut ctx.escrow.lamports, amount_b) {
        return Err(failure);
    }
    ctx.escrow.data = Some(EscrowAccount { is_funded: true, taker: Some(ctx.taker.key), ..record });
    Ok(EscrowFunded { escrow: ctx.escrow.key, taker: ctx.taker.key, amount_b, ts: now })
}

/// Why `caller` cannot have the swap in `data` carried out, or `None`
/// where they can.
///
/// In this order: the record is active, it is funded, it names a taker,
/// and the caller is that taker.
pub open spec fn complete_refusal(data: Option<EscrowAccount>, caller: Identity) -> Option<
    EscrowError,
> {
    match data {
        None => Some(EscrowError::NotActive),
        Some(record) => if !record.is_active {
            Some(EscrowError::NotActive)
        } else if !record.is_funded {
            Some(EscrowError::NotFunded)
        } else if record.taker is None {
            Some(EscrowError::TakerNotSet)
        } else if record.taker != Some(caller) {
            Some(EscrowError::Unauthorized)
        } else {
            None
        },
    }
}

/// The record once the swap has been carried out.
pub open spec fn completed(record: EscrowAccount) -> EscrowAccount {
    EscrowAccount {
        is_active: false,
        is_funded: false,
        is_completed: true,
        taker: None,
        ..record
    }
}

/// What carrying out the swap does.
///
/// Where nothing refuses, `amount_a` moves from the vault to the taker
/// and `amount_b_expected` from the vault to the maker, both or neither,
/// and the record becomes completed.
pub open spec fn complete_outcome(ctx: CompleteSwap, now: i64) -> (
    CompleteSwap,
    Result<EscrowCompleted, Failure>,
) {
    if let Some(error) = complete_refusal(ctx.escrow.data, ctx.taker.key) {
        (ctx, Err(Failure::Rule(error)))
    } else {
        let record = ctx.escrow.data->Some_0;
        let amount_a = record.amount_a;
        let amount_b = record.amount_b_expected;
        if ctx.maker.key != record.maker {
            (ctx, Err(Failure::WrongAccount))
        } else if let Some(failure) = transfer_refusal(
            ctx.escrow.lamports,
            ctx.taker.lamports,
            amount_a,
        ) {
            (ctx, Err(failure))
        } else if let Some(failure) = transfer_refusal(
            (ctx.escrow.lamports - amount_a) as u64,
            ctx.maker.lamports,
            amount_b,
        ) {
            (ctx, Err(failure))
        } else {
            (
                CompleteSwap {
                    escrow: EscrowVault {
                        key: ctx.escrow.key,
                        lamports: (ctx.escrow.lamports - amount_a - amount_b) as u64,
                        data: Some(completed(record)),
                    },
                    taker: Wallet {
                        key: ctx.taker.key,
                        lamports: (ctx.taker.lamports + amount_a) as u64,
                    },
                    maker: Wallet {
                        key: ctx.maker.key,
                        lamports: (ctx.maker.lamports + amount_b) as u64,
                    },
                },
                Ok(
                    EscrowCompleted {
                        escrow: ctx.escrow.key,
                        maker: record.maker,
                        taker: ctx.taker.key,
                        ts: now,
                    },
                ),
            )
        }
    }
}

/// Carries out the swap of a funded escrow: the caller, who must be the
/// taker, is paid the maker's deposit, and the maker the taker's.
///
/// `now` is the current time.
pub fn complete_swap(ctx: &mut CompleteSwap, now: i64) -> (r: Result<EscrowCompleted, Failure>)
    ensures
        (*final(ctx), r) == complete_outcome(*old(ctx), now),
{
    let record = match ctx.escrow.data {
        Some(record) => record,
        None => {
            return Err(Failure::Rule(EscrowError::NotActive));
        },
    };
    if !record.is_active {
        return Err(Failure::Rule(EscrowError::NotActive));
    }
    if !record.is_funded {
        return Err(Failure::Rule(EscrowError::NotFunded));
    }
    let taker_key = match record.taker {
        Some(key) => key,
        None => {
            return Err(Failure::Rule(EscrowError::TakerNotSet));
        },
    };
    if taker_key != ctx.taker.key {
        return Err(Failure::Rule(EscrowError::Unauthorized));
    }
    if ctx.maker.key != record.maker {
        return Err(Failure::WrongAccount);
    }
    // Both payments are made on copies, so that a second one that fails
    // leaves no trace of the first.
    let mut held = ctx.escrow.lamports;
    let mut to_taker = ctx.taker.lamports;
    let mut to_maker = ctx.maker.lamports;
    if let Err(failure) = transfer(&mut held, &mut to_taker, record.amount_a) {
        return Err(failure);
    }
    if let Err(failure) = transfer(&mut held, &mut to_maker, record.amount_b_expected) {
        return Err(failure);
    }
    ctx.escrow.lamports = held;
    ctx.taker.lamports = to_taker;
    ctx.maker.lamports = to_maker;
    ctx.escrow.data = Some(
        EscrowAccount {
            is_active: false,
            is_funded: false,
            is_completed: true,
            taker: None,
            ..record
        },
    );
    Ok(
        EscrowCompleted {
            escrow: ctx.escrow.key,
            maker: record.maker,
            taker: ctx.taker.key,
            ts: now,
        },
    )
}

/// Why `caller` cannot withdraw the offer in `data`, or `None` where they
/// can.
///
/// In this order: the caller is the maker, the record is active, and it
/// is not funded.
pub open spec fn cancel_refusal(data: Option<EscrowAccount>, caller: Identity) -> Option<
    EscrowError,
> {
    match data {
        None => Some(EscrowError::Unauthorized),
        Some(record) => if record.maker != caller {
            Some(EscrowError::Unauthorized)
        } else if !record.is_active {
            Some(EscrowError::NotActive)
        } else if record.is_funded {
            Some(EscrowError::AlreadyFunded)
        } else {
            None
        },
    }
}

/// Why `caller` cannot reclaim the deposit of the offer in `data` at the
/// time `now`, or `None` where they can.
///
/// The rules of a withdrawal, and then: `now` lies after the expiry.
pub open spec fn refund_refusal(data: Option<EscrowAccount>, caller: Identity, now: i64) -> Option<
    EscrowError,
> {
    if let Some(error) = cancel_refusal(data, caller) {
        Some(error)
    } else if now <= data->Some_0.expiry_ts {
        Some(EscrowError::NotExpired)
    } else {
        None
    }
}

/// The record once the maker has been paid back.
pub open spec fn closed(record: EscrowAccount) -> EscrowAccount {
    EscrowAccount { is_active: false, ..record }
}

/// What withdrawing an offer does.
///
/// Where nothing refuses, `amount_a` moves from the vault back to the
/// maker and the record is no longer active.
pub open spec fn cancel_outcome(ctx: CancelEscrow, now: i64) -> (
    CancelEscrow,
    Result<EscrowCancelled, Failure>,
) {
    if let Some(error) = cancel_refusal(ctx.escrow.data, ctx.maker.key) {
        (ctx, Err(Failure::Rule(error)))
    } else {
        let record = ctx.escrow.data->Some_0;
        if let Some(failure) = transfer_refusal(
            ctx.escrow.lamports,
            ctx.maker.lamports,
            record.amount_a,
        ) {
            (ctx, Err(failure))
        } else {
            (
                CancelEscrow {
                    escrow: EscrowVault {
                        key: ctx.escrow.key,
                        lamports: (ctx.escrow.lamports - record.amount_a) as u64,
                        data: Some(closed(record)),
                    },
                    maker: Wallet {
                        key: ctx.maker.key,
                        lamports: (ctx.maker.lamports + record.amount_a) as u64,
                    },
                },
                Ok(EscrowCancelled { escrow: ctx.escrow.key, maker: record.maker, ts: now }),
            )
        }
    }
}

/// Withdraws an offer that nobody has accepted: the caller, who must be
/// the maker, is paid back the deposit.
///
/// `now` is the current time.
pub fn cancel_escrow(ctx: &mut CancelEscrow, now: i64) -> (r: Result<EscrowCancelled, Failure>)
    ensures
        (*final(ctx), r) == cancel_outcome(*old(ctx), now),
{
    let record = match ctx.escrow.data {
        Some(record) => record,
        None => {
            return Err(Failure::Rule(EscrowError::Unauthorized));
        },
    };
    if record.maker != ctx.maker.key {
        return Err(Failure::Rule(EscrowError::Unauthorized));
    }
    if !record.is_active {
        return Err(Failure::Rule(EscrowError::NotActive));
    }
    if record.is_funded {
        return Err(Failure::Rule(EscrowError::AlreadyFunded));
    }
    if let Err(failure) = transfer(&mut ctx.escrow.lamports, &mut ctx.maker.lamports, record.amount_a) {
        return Err(failure);
    }
    ctx.escrow.data = Some(EscrowAccount { is_active: false, ..record });
    Ok(EscrowCancelled { escrow: ctx.escrow.key, maker: record.maker, ts: now })
}

/// What reclaiming the deposit of an expired offer does.
///
/// Where nothing refuses, `amount_a` moves from the vault back to the
/// maker and the record is no longer active.
pub open spec fn refund_outcome(ctx: RefundAfterExpiry, now: i64) -> (
    RefundAfterExpiry,
    Result<EscrowRefunded, Failure>,
) {
    if let Some(error) = refund_refusal(ctx.escrow.data, ctx.maker.key, now) {
        (ctx, Err(Failure::Rule(error)))
    } else {
        let record = ctx.escrow.data->Some_0;
        if let Some(failure) = transfer_refusal(
            ctx.escrow.lamports,
            ctx.maker.lamports,
            record.amount_a,
        ) {
            (ctx, Err(failure))
        } else {
            (
                RefundAfterExpiry {
                    escrow: EscrowVault {
                        key: ctx.escrow.key,
                        lamports: (ctx.escrow.lamports - record.amount_a) as u64,
                        data: Some(closed(record)),
                    },
                    maker: Wallet {
                        key: ctx.maker.key,
                        lamports: (ctx.maker.lamports + record.amount_a) as u64,
                    },
                },
                Ok(EscrowRefunded { escrow: ctx.escrow.key, maker: record.maker, ts: now }),
            )
        }
    }
}

/// Reclaims the deposit of an offer that expired without being accepted:
/// the caller, who must be the maker, is paid back.
///
/// `now` is the current time.
pub fn refund_after_expiry(ctx: &mut RefundAfterExpiry, now: i64) -> (r: Result<
    EscrowRefunded,
    Failure,
>)
    ensures
        (*final(ctx), r) == refund_outcome(*old(ctx), now),
{
    let record = match ctx.escrow.data {
        Some(record) => record,
        None => {
            return Err(Failure::Rule(EscrowError::Unauthorized));
        },
    };
    if record.maker != ctx.maker.key {
        return Err(Failure::Rule(EscrowError::Unauthorized));
    }
    if !record.is_active {
        return Err(Failure::Rule(EscrowError::NotActive));
    }
    if record.is_funded {
        return Err(Failure::Rule(EscrowError::AlreadyFunded));
    }
    if now <= record.expiry_ts {
        return Err(Failure::Rule(EscrowError::NotExpired));
    }
    if let Err(failure) = transfer(&mut ctx.escrow.lamports, &mut ctx.maker.lamports, record.amount_a) {
        return Err(failure);
    }
    ctx.escrow.data = Some(EscrowAccount { is_active: false, ..record });
    Ok(EscrowRefunded { escrow: ctx.escrow.key, maker: record.maker, ts: now })
}

} // verus!
