//! Paying the prize: the split of the pool and the one claim that a lottery
//! honours.

use vstd::prelude::*;
use crate::error::LotteryError;
use crate::record::{Lottery, Ticket, Wallet};

verus! {

/// The share of the pool, in hundredths, that goes to the fee recipient: a
/// tenth of every pool is withheld.
pub const FEE_PERCENT: u64 = 10;

/// How a pool is split.
#[derive(Clone, Copy, Debug, PartialEq, Eq, Structural)]
pub struct Settlement {
    /// Everything the buyers paid in.
    pub pool: u64,
    /// The part that goes to the fee recipient.
    pub fee: u64,
    /// The part that goes to the winner.
    pub payout: u64,
}

/// The fee on a pool: the tenth part of it, rounded down.
pub open spec fn fee_of(pool: int) -> int {
    pool * FEE_PERCENT as int / 100
}

/// What the winner gets of a pool: all of it but the fee.
pub open spec fn payout_of(pool: int) -> int {
    pool - fee_of(pool)
}

/// The split of a pool.
pub open spec fn split_of(pool: int) -> Settlement
    recommends
        0 <= pool <= u64::MAX,
{
    Settlement { pool: pool as u64, fee: fee_of(pool) as u64, payout: payout_of(pool) as u64 }
}

/// Splits a pool into fee and payout.
pub fn split(pool: u64) -> (s: Settlement)
    ensures
        s == split_of(pool as int),
        s.pool == pool,
        s.fee == fee_of(pool as int),
        s.payout == payout_of(pool as int),
        s.fee + s.payout == pool,
{
    let fee: u64 = pool / 100 * FEE_PERCENT + pool % 100 * FEE_PERCENT / 100;
    assert(fee == fee_of(pool as int)) by {
        assert(pool as int == 100 * (pool as int / 100) + pool as int % 100);
    }
    Settlement { pool, fee, payout: pool - fee }
}

/// Why `lottery` refuses a claim with `ticket`, if it does. The checks are
/// made in this order: a lottery that has paid out refuses every claim, one
/// without a winner refuses next, and then a ticket that did not win is
/// turned away.
pub open spec fn claim_refusal(lottery: Lottery, ticket: Ticket) -> Option<LotteryError> {
    if lottery.claimed {
        Some(LotteryError::AlreadyClaimed)
    } else if lottery.winner_id is None {
        Some(LotteryError::WinnerNotChosen)
    } else if lottery.winner_id != Some(ticket.id) {
        Some(LotteryError::InvalidWinner)
    } else {
        None
    }
}

/// What a claim on `lottery` with `ticket` comes to: the refusal, or the
/// split that is paid out.
pub open spec fn claim_verdict(lottery: Lottery, ticket: Ticket) -> Result<Settlement, LotteryError> {
    match claim_refusal(lottery, ticket) {
        Some(refusal) => Err(refusal),
        None => Ok(split_of(lottery.pool())),
    }
}

/// The lottery after a claim with `ticket`.
pub open spec fn after_claim(lottery: Lottery, ticket: Ticket) -> Lottery {
    if claim_verdict(lottery, ticket) is Ok {
        Lottery { claimed: true, ..lottery }
    } else {
        lottery
    }
}

/// What a claim on `lottery` with `ticket` moves: the split that is paid
/// out, or nothing where the claim is refused.
pub open spec fn moved_by_claim(lottery: Lottery, ticket: Ticket) -> Settlement {
    match claim_verdict(lottery, ticket) {
        Ok(s) => s,
        Err(_) => Settlement { pool: 0, fee: 0, payout: 0 },
    }
}

/// Whether the pool of `lottery` can be paid out of `escrow` into the two
/// accounts: escrow holds the pool, and neither account would overflow.
pub open spec fn funds_suffice(
    lottery: Lottery,
    escrow: u64,
    winner: Wallet,
    fee_recipient: Wallet,
) -> bool {
    &&& lottery.pool() <= escrow
    &&& winner.balance + payout_of(lottery.pool()) <= u64::MAX
    &&& fee_recipient.balance + fee_of(lottery.pool()) <= u64::MAX
}

/// Tests [`funds_suffice`].
pub fn can_pay_out(
    lottery: &Lottery,
    escrow: u64,
    winner: &Wallet,
    fee_recipient: &Wallet,
) -> (r: bool)
    ensures
        r == funds_suffice(*lottery, escrow, *winner, *fee_recipient),
{
    match lottery.ticket_price.checked_mul(lottery.last_ticket_id as u64) {
        Some(pool) => {
            let s = split(pool);
            pool <= escrow && s.payout <= u64::MAX - winner.balance && s.fee <= u64::MAX
                - fee_recipient.balance
        },
        None => false,
    }
}

/// Tells whether `lottery` would grant a claim with `ticket` now, and why not
/// if it would not.
pub fn claim_allowed(lottery: &Lottery, ticket: &Ticket) -> (res: Result<(), LotteryError>)
    ensures
        res == (match claim_refusal(*lottery, *ticket) {
            Some(refusal) => Err::<(), LotteryError>(refusal),
            None => Ok(()),
        }),
{
    if lottery.claimed {
        return Err(LotteryError::AlreadyClaimed);
    }
    match lottery.winner_id {
        Some(winner_id) => {
            if winner_id != ticket.id {
                Err(LotteryError::InvalidWinner)
            } else {
                Ok(())
            }
        },
        None => Err(LotteryError::WinnerNotChosen),
    }
}

/// Pays the prize of `lottery` to the owner of the winning ticket.
///
/// `ticket` is the ticket that the claimant presents, `escrow` the balance
/// that the ticket sales built up, `winner` the claimant's account and
/// `fee_recipient` the account that the claimant names for the fee. The
/// ledger has bound the ticket to this lottery and to the claimant before the
/// call. The three balances belong to three different accounts.
///
/// A claim that is refused changes nothing. One that is granted moves the
/// whole pool out of escrow, the fee to `fee_recipient` and the rest to
/// `winner`, and closes the lottery for good.
///
/// Any account can be named as `fee_recipient`: the lottery keeps no record
/// of who is to get the fee, and checks none.
pub fn claim_prize(
    lottery: &mut Lottery,
    ticket: &Ticket,
    escrow: &mut u64,
    winner: &mut Wallet,
    fee_recipient: &mut Wallet,
) -> (res: Result<Settlement, LotteryError>)
    requires
        ticket.lottery_id == old(lottery).id,
        ticket.authority == old(winner).key,
        claim_verdict(*old(lottery), *ticket) is Ok ==> funds_suffice(
            *old(lottery),
            *old(escrow),
            *old(winner),
            *old(fee_recipient),
        ),
    ensures
        res == claim_verdict(*old(lottery), *ticket),
        *final(lottery) == after_claim(*old(lottery), *ticket),
        *final(escrow) == *old(escrow) - moved_by_claim(*old(lottery), *ticket).pool,
        *final(winner) == (Wallet {
            balance: (old(winner).balance + moved_by_claim(*old(lottery), *ticket).payout) as u64,
            ..*old(winner)
        }),
        *final(fee_recipient) == (Wallet {
            balance: (old(fee_recipient).balance + moved_by_claim(
                *old(lottery),
                *ticket,
            ).fee) as u64,
            ..*old(fee_recipient)
        }),
        res matches Ok(s) ==> {
            &&& s.pool == old(lottery).pool()
            &&& s.fee == fee_of(s.pool as int)
            &&& s.payout == s.pool - s.fee
        },
        old(lottery).wf() ==> final(lottery).wf(),
{
    match claim_allowed(lottery, ticket) {
        Err(refusal) => Err(refusal),
        Ok(()) => {
            let pool: u64 = lottery.ticket_price * (lottery.last_ticket_id as u64);
            let s = split(pool);
            *escrow = *escrow - s.payout;
            winner.balance = winner.balance + s.payout;
            *escrow = *escrow - s.fee;
            fee_recipient.balance = fee_recipient.balance + s.fee;
            lottery.claimed = true;
            Ok(s)
        },
    }
}

} // verus!
