//! The life of an escrow as a sequence of calls, and the account of the
//! value that went in and out of its vault.
//!
//! A call is one operation together with the accounts and arguments it
//! was given. A history is a sequence of calls on one vault, each working
//! on the vault as the one before left it. Calls that fail are part of a
//! history too: they leave the vault as it was.

use crate::account::EscrowVault;
use crate::context::CancelEscrow;
use crate::context::CompleteSwap;
use crate::context::CreateEscrow;
use crate::context::FundEscrow;
use crate::context::RefundAfterExpiry;
use crate::engine::cancel_outcome;
use crate::engine::complete_outcome;
use crate::engine::create_outcome;
use crate::engine::fund_outcome;
use crate::engine::refund_outcome;
use crate::identity::Identity;
use vstd::prelude::*;

verus! {

/// One call of an operation: the accounts and the arguments.
pub enum Call {
    Create {
        ctx: CreateEscrow,
        identity: Option<(Identity, u8)>,
        escrow_id: u64,
        amount_a: u64,
        amount_b_expected: u64,
        expiry_ts: i64,
        taker_pubkey: Identity,
        now: i64,
    },
    Fund { ctx: FundEscrow, now: i64 },
    Complete { ctx: CompleteSwap, now: i64 },
    Cancel { ctx: CancelEscrow, now: i64 },
    Refund { ctx: RefundAfterExpiry, now: i64 },
}

/// What the parties paid into a vault and were paid out of it, and how
/// often each kind of payout took effect.
pub struct Tally {
    /// Paid in by the maker when opening.
    pub maker_deposits: int,
    /// Paid in by the taker when accepting.
    pub taker_deposits: int,
    /// Paid out to the maker by the swap.
    pub maker_payouts: int,
    /// Paid out to the taker by the swap.
    pub taker_payouts: int,
    /// Paid back to the maker by a withdrawal or a reclaim.
    pub maker_refunds: int,
    /// Swaps that took effect.
    pub swaps: int,
    /// Withdrawals that took effect.
    pub withdrawals: int,
    /// Reclaims that took effect.
    pub reclaims: int,
}

impl Tally {
    /// Nothing paid in, nothing paid out.
    pub open spec fn zero() -> Tally {
        Tally {
            maker_deposits: 0,
            taker_deposits: 0,
            maker_payouts: 0,
            taker_payouts: 0,
            maker_refunds: 0,
            swaps: 0,
            withdrawals: 0,
            reclaims: 0,
        }
    }

    /// The two tallies added up, entry by entry.
    pub open spec fn plus(self, other: Tally) -> Tally {
        Tally {
            maker_deposits: self.maker_deposits + other.maker_deposits,
            taker_deposits: self.taker_deposits + other.taker_deposits,
            maker_payouts: self.maker_payouts + other.maker_payouts,
            taker_payouts: self.taker_payouts + other.taker_payouts,
            maker_refunds: self.maker_refunds + other.maker_refunds,
            swaps: self.swaps + other.swaps,
            withdrawals: self.withdrawals + other.withdrawals,
            reclaims: self.reclaims + other.reclaims,
        }
    }

    /// All that was paid into the vault.
    pub open spec fn deposited(self) -> int {
        self.maker_deposits + self.taker_deposits
    }

    /// All that was paid out of the vault.
    pub open spec fn paid_out(self) -> int {
        self.maker_payouts + self.taker_payouts + self.maker_refunds
    }

    /// The payouts that took effect, of all three kinds.
    pub open spec fn outcomes(self) -> int {
        self.swaps + self.withdrawals + self.reclaims
    }
}

impl Call {
    /// The vault that the call works on.
    pub open spec fn vault_before(self) -> EscrowVault {
        match self {
            Call::Create { ctx, .. } => ctx.escrow,
            Call::Fund { ctx, .. } => ctx.escrow,
            Call::Complete { ctx, .. } => ctx.escrow,
            Call::Cancel { ctx, .. } => ctx.escrow,
            Call::Refund { ctx, .. } => ctx.escrow,
        }
    }

    /// The vault as the call leaves it.
    pub open spec fn vault_after(self) -> EscrowVault {
        match self {
            Call::Create {
                ctx,
                identity,
                escrow_id,
                amount_a,
                amount_b_expected,
                expiry_ts,
                taker_pubkey,
                now,
            } => create_outcome(
                ctx,
                identity,
                escrow_id,
                amount_a,
                amount_b_expected,
                expiry_ts,
                taker_pubkey,
                now,
            ).0.escrow,
            Call::Fund { ctx, now } => fund_outcome(ctx, now).0.escrow,
            Call::Complete { ctx, now } => complete_outcome(ctx, now).0.escrow,
            Call::Cancel { ctx, now } => cancel_outcome(ctx, now).0.escrow,
            Call::Refund { ctx, now } => refund_outcome(ctx, now).0.escrow,
        }
    }

    /// What the call took from and gave to the wallets of the parties,
    /// read off their balances before and after it.
    pub open spec fn tally(self) -> Tally {
        match self {
            Call::Create {
                ctx,
                identity,
                escrow_id,
                amount_a,
                amount_b_expected,
                expiry_ts,
                taker_pubkey,
                now,
            } => {
                let after = create_outcome(
                    ctx,
                    identity,
                    escrow_id,
                    amount_a,
                    amount_b_expected,
                    expiry_ts,
                    taker_pubkey,
                    now,
                ).0;
                Tally { maker_deposits: ctx.maker.lamports - after.maker.lamports, ..Tally::zero() }
            },
            Call::Fund { ctx, now } => {
                let after = fund_outcome(ctx, now).0;
                Tally { taker_deposits: ctx.taker.lamports - after.taker.lamports, ..Tally::zero() }
            },
            Call::Complete { ctx, now } => {
                let (after, result) = complete_outcome(ctx, now);
                Tally {
                    maker_payouts: after.maker.lamports - ctx.maker.lamports,
                    taker_payouts: after.taker.lamports - ctx.taker.lamports,
                    swaps: if result is Ok {
                        1
                    } else {
                        0
                    },
                    ..Tally::zero()
                }
            },
            Call::Cancel { ctx, now } => {
                let (after, result) = cancel_outcome(ctx, now);
                Tally {
                    maker_refunds: after.maker.lamports - ctx.maker.lamports,
                    withdrawals: if result is Ok {
                        1
                    } else {
                        0
                    },
                    ..Tally::zero()
                }
            },
            Call::Refund { ctx, now } => {
                let (after, result) = refund_outcome(ctx, now);
                Tally {
                    maker_refunds: after.maker.lamports - ctx.maker.lamports,
                    reclaims: if result is Ok {
                        1
                    } else {
                        0
                    },
                    ..Tally::zero()
                }
            },
        }
    }
}

/// The vault after all the calls, where `start` is the vault before the
/// first.
pub open spec fn vault_after_all(start: EscrowVault, calls: Seq<Call>) -> EscrowVault {
    if calls.len() == 0 {
        start
    } else {
        calls.last().vault_after()
    }
}

/// The calls form a history of the vault `start`: the first works on
/// `start`, and each later one on the vault as the one before left it.
pub open spec fn is_history(start: EscrowVault, calls: Seq<Call>) -> bool
    decreases calls.len(),
{
    if calls.len() == 0 {
        true
    } else {
        &&& is_history(start, calls.drop_last())
        &&& calls.last().vault_before() == vault_after_all(start, calls.drop_last())
    }
}

/// The tallies of all the calls, added up.
pub open spec fn tally_of(calls: Seq<Call>) -> Tally
    decreases calls.len(),
{
    if calls.len() == 0 {
        Tally::zero()
    } else {
        tally_of(calls.drop_last()).plus(calls.last().tally())
    }
}

/// The tally accounts for the vault in the state it is in.
///
/// Without a record nothing has moved. While the offer is open the maker
/// has paid in `amount_a`; once it is funded the taker has paid in
/// `amount_b_expected` as well; nothing has been paid out. After the
/// outcome exactly one payout has taken effect: either the swap, which
/// paid each party the deposit of the other, or a withdrawal or a
/// reclaim, which paid the maker's deposit back to the maker when the
/// taker had paid in nothing.
pub open spec fn accounts_for(tally: Tally, vault: EscrowVault) -> bool {
    match vault.data {
        None => tally == Tally::zero(),
        Some(record) => {
            &&& tally.maker_deposits == record.amount_a
            &&& if record.is_active {
                &&& tally.taker_deposits == if record.is_funded {
                    record.amount_b_expected as int
                } else {
                    0
                }
                &&& tally.paid_out() == 0
                &&& tally.maker_payouts == 0
                &&& tally.taker_payouts == 0
                &&& tally.swaps == 0
                &&& tally.withdrawals == 0
                &&& tally.reclaims == 0
            } else if tally.swaps == 1 {
                &&& tally.withdrawals == 0
                &&& tally.reclaims == 0
                &&& tally.taker_deposits == record.amount_b_expected
                &&& tally.maker_payouts == record.amount_b_expected
                &&& tally.taker_payouts == record.amount_a
                &&& tally.maker_refunds == 0
            } else {
                &&& tally.swaps == 0
                &&& tally.withdrawals + tally.reclaims == 1
                &&& tally.withdrawals >= 0
                &&& tally.reclaims >= 0
                &&& tally.taker_deposits == 0
                &&& tally.maker_payouts == 0
                &&& tally.taker_payouts == 0
                &&& tally.maker_refunds == record.amount_a
            }
        },
    }
}

/// One call keeps the account: where the tally so far accounts for the
/// vault that the call works on, the tally with the call added accounts
/// for the vault as the call leaves it, and the vault's balance has
/// changed by what the call paid in less what it paid out.
pub proof fn a_call_keeps_the_account(tally: Tally, call: Call)
    requires
        accounts_for(tally, call.vault_before()),
    ensures
        accounts_for(tally.plus(call.tally()), call.vault_after()),
        call.vault_after().lamports - call.vault_before().lamports == call.tally().deposited()
            - call.tally().paid_out(),
{
}

/// The held balance is the sum of the deposits less the sum of the
/// payouts: after any history of a vault that started without a record,
/// the tally of the calls accounts for the vault, and the vault holds
/// what it held at the start, and what was paid in, less what was paid
/// out.
pub proof fn the_vault_holds_deposits_less_payouts(start: EscrowVault, calls: Seq<Call>)
    requires
        start.data is None,
        is_history(start, calls),
    ensures
        accounts_for(tally_of(calls), vault_after_all(start, calls)),
        vault_after_all(start, calls).lamports == start.lamports + tally_of(calls).deposited()
            - tally_of(calls).paid_out(),
    decreases calls.len(),
{
    if calls.len() > 0 {
        the_vault_holds_deposits_less_payouts(start, calls.drop_last());
        a_call_keeps_the_account(tally_of(calls.drop_last()), calls.last());
    }
}

/// Conservation: when an escrow has ended, what the maker and the taker
/// paid in equals what was paid out to the maker, to the taker, and back
/// to the maker as a refund; exactly one of the swap, a withdrawal and a
/// reclaim has taken effect; and the vault holds what it held before the
/// escrow was opened.
pub proof fn conservation(start: EscrowVault, calls: Seq<Call>)
    requires
        start.data is None,
        is_history(start, calls),
        vault_after_all(start, calls).data matches Some(record) && record.is_terminal(),
    ensures
        ({
            let tally = tally_of(calls);
            &&& tally.maker_deposits + tally.taker_deposits == tally.maker_payouts
                + tally.taker_payouts + tally.maker_refunds
            &&& tally.swaps + tally.withdrawals + tally.reclaims == 1
            &&& tally.swaps == 1 || tally.withdrawals == 1 || tally.reclaims == 1
            &&& vault_after_all(start, calls).lamports == start.lamports
        }),
{
    the_vault_holds_deposits_less_payouts(start, calls);
}

} // verus!
