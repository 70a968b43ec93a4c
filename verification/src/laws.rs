//! What holds of the lottery over its whole life, stated over the functions
//! that the contracts of the operations speak of.

use vstd::prelude::*;
use crate::draw::{after_draw, draw_verdict};
use crate::error::LotteryError;
use crate::identity::Identity;
use crate::lifecycle::{after_sale, next_ticket, opened, paid_for_ticket, sale_verdict, stepped};
use crate::record::{Lottery, Phase, Ticket};
use crate::registry::Master;
use crate::settlement::{after_claim, claim_verdict, moved_by_claim, Settlement};

verus! {

/// The lottery after the buyers in `buyers` have each bought a ticket, one
/// after the other.
pub open spec fn after_sales(lottery: Lottery, buyers: Seq<Identity>) -> Lottery
    decreases buyers.len(),
{
    if buyers.len() == 0 {
        lottery
    } else {
        after_sale(after_sales(lottery, buyers.drop_last()))
    }
}

/// The tickets that the buyers in `buyers` get, in the order of their
/// purchases.
pub open spec fn tickets_sold(lottery: Lottery, buyers: Seq<Identity>) -> Seq<Ticket>
    decreases buyers.len(),
{
    if buyers.len() == 0 {
        Seq::empty()
    } else {
        tickets_sold(lottery, buyers.drop_last()).push(
            next_ticket(after_sales(lottery, buyers.drop_last()), buyers.last()),
        )
    }
}

/// How far a lottery has come: a phase is never left for an earlier one.
pub open spec fn rank(phase: Phase) -> int {
    match phase {
        Phase::Created => 0,
        Phase::Drawn => 1,
        Phase::Settled => 2,
    }
}

/// Two lotteries opened one after the other get numbers that follow one
/// another: the second is one more than the first, whatever the prices and
/// whoever opens them. No number is given twice.
pub proof fn lemma_lottery_ids_are_sequential(
    master: Master,
    first_authority: Identity,
    second_authority: Identity,
    first_price: u64,
    second_price: u64,
)
    requires
        master.last_id + 2 <= u32::MAX,
    ensures
        ({
            let after_first = stepped(master);
            let first = opened(after_first.last_id, first_authority, first_price);
            let after_second = stepped(after_first);
            let second = opened(after_second.last_id, second_authority, second_price);
            &&& first.id == master.last_id + 1
            &&& second.id == first.id + 1
            &&& first.id != second.id
            &&& after_second.last_id == second.id
        }),
{
}

/// While no winner is drawn every purchase goes through, the count of
/// tickets grows by the number of purchases, and the tickets carry the
/// numbers that follow the last one sold before, each once and none left
/// out: in a lottery that starts with no ticket sold they are 1, 2, 3 and so
/// on, up to the count. Each ticket names its buyer and its lottery. Nothing
/// else in the lottery changes, and the pool grows by one price for each
/// ticket.
pub proof fn lemma_tickets_are_numbered_in_sequence(lottery: Lottery, buyers: Seq<Identity>)
    requires
        lottery.winner_id is None,
        lottery.last_ticket_id + buyers.len() <= u32::MAX,
    ensures
        after_sales(lottery, buyers) == (Lottery {
            last_ticket_id: (lottery.last_ticket_id + buyers.len()) as u32,
            ..lottery
        }),
        tickets_sold(lottery, buyers).len() == buyers.len(),
        forall|i: int|
            0 <= i < buyers.len() ==> {
                let ticket = #[trigger] tickets_sold(lottery, buyers)[i];
                &&& ticket.id == lottery.last_ticket_id + i + 1
                &&& ticket.authority == buyers[i]
                &&& ticket.lottery_id == lottery.id
                &&& sale_verdict(after_sales(lottery, buyers.take(i)), buyers[i]) == Ok::<
                    Ticket,
                    LotteryError,
                >(ticket)
                &&& paid_for_ticket(after_sales(lottery, buyers.take(i))) == lottery.ticket_price
            },
        forall|i: int, j: int|
            #![trigger tickets_sold(lottery, buyers)[i], tickets_sold(lottery, buyers)[j]]
            0 <= i < j < buyers.len() ==> tickets_sold(lottery, buyers)[i].id != tickets_sold(
                lottery,
                buyers,
            )[j].id,
        after_sales(lottery, buyers).pool() == lottery.pool() + buyers.len()
            * lottery.ticket_price,
    decreases buyers.len(),
{
    if buyers.len() > 0 {
        let before = buyers.drop_last();
        let n = before.len() as int;
        lemma_tickets_are_numbered_in_sequence(lottery, before);
        assert(buyers.take(n) == before);
        assert forall|i: int| 0 <= i < buyers.len() implies {
            let ticket = #[trigger] tickets_sold(lottery, buyers)[i];
            &&& ticket.id == lottery.last_ticket_id + i + 1
            &&& ticket.authority == buyers[i]
            &&& ticket.lottery_id == lottery.id
            &&& sale_verdict(after_sales(lottery, buyers.take(i)), buyers[i]) == Ok::<
                Ticket,
                LotteryError,
            >(ticket)
            &&& paid_for_ticket(after_sales(lottery, buyers.take(i))) == lottery.ticket_price
        } by {
            if i < n {
                assert(tickets_sold(lottery, buyers)[i] == tickets_sold(lottery, before)[i]);
                assert(buyers.take(i) == before.take(i));
                assert(buyers[i] == before[i]);
            }
        }
        let price = lottery.ticket_price as int;
        let sold = lottery.last_ticket_id as int;
        assert(price * (sold + n + 1) == price * sold + (n + 1) * price) by (nonlinear_arith);
        assert(price * (sold + n) == price * sold + n * price) by (nonlinear_arith);
    }
}

/// A sale adds the same amount to escrow and to the pool, and a refused sale
/// adds nothing to either. So what escrow holds beyond the pool is the same
/// before and after: an escrow that covers the pool when the lottery opens
/// still covers it when the prize is claimed.
pub proof fn lemma_sale_keeps_escrow_covering(lottery: Lottery, escrow: u64)
    requires
        lottery.last_ticket_id < u32::MAX,
    ensures
        escrow + paid_for_ticket(lottery) - after_sale(lottery).pool() == escrow - lottery.pool(),
        lottery.pool() <= escrow ==> after_sale(lottery).pool() <= escrow + paid_for_ticket(
            lottery,
        ),
{
    let price = lottery.ticket_price as int;
    let sold = lottery.last_ticket_id as int;
    assert(price * (sold + 1) == price * sold + price) by (nonlinear_arith);
}

/// A draw that goes through names a ticket that was sold. After it every
/// further draw is refused, whatever the clock shows, and the winner stays.
/// No ticket is sold any more either.
pub proof fn lemma_winner_is_drawn_once(
    lottery: Lottery,
    digest: Seq<u8>,
    slot: u64,
    later_digest: Seq<u8>,
    later_slot: u64,
    late_buyer: Identity,
)
    requires
        draw_verdict(lottery, digest, slot) is Ok,
    ensures
        ({
            let winner = draw_verdict(lottery, digest, slot)->Ok_0;
            let drawn = after_draw(lottery, digest, slot);
            &&& 1 <= winner <= lottery.last_ticket_id
            &&& drawn.winner_id == Some(winner)
            &&& draw_verdict(drawn, later_digest, later_slot) == Err::<u32, LotteryError>(
                LotteryError::WinnerAlreadyExists,
            )
            &&& after_draw(drawn, later_digest, later_slot) == drawn
            &&& sale_verdict(drawn, late_buyer) == Err::<Ticket, LotteryError>(
                LotteryError::WinnerAlreadyExists,
            )
            &&& after_sale(drawn) == drawn
            &&& paid_for_ticket(drawn) == 0
        }),
{
}

/// A lottery that has sold no ticket refuses every draw, for want of
/// tickets.
pub proof fn lemma_no_draw_without_tickets(lottery: Lottery, digest: Seq<u8>, slot: u64)
    requires
        lottery.wf(),
        lottery.last_ticket_id == 0,
    ensures
        draw_verdict(lottery, digest, slot) == Err::<u32, LotteryError>(LotteryError::NoTickets),
        after_draw(lottery, digest, slot) == lottery,
{
}

/// A prize is paid once. After a claim that went through, every further
/// claim is refused as already paid, whatever ticket is presented, and moves
/// nothing.
pub proof fn lemma_prize_is_claimed_once(lottery: Lottery, ticket: Ticket, later_ticket: Ticket)
    requires
        claim_verdict(lottery, ticket) is Ok,
    ensures
        ({
            let settled = after_claim(lottery, ticket);
            &&& settled.claimed
            &&& claim_verdict(settled, later_ticket) == Err::<Settlement, LotteryError>(
                LotteryError::AlreadyClaimed,
            )
            &&& after_claim(settled, later_ticket) == settled
            &&& moved_by_claim(settled, later_ticket) == (Settlement { pool: 0, fee: 0, payout: 0 })
        }),
{
}

/// Once the winner is drawn and until the prize is paid, a ticket with
/// another number than the winner's is turned away, and nothing is moved.
pub proof fn lemma_losing_ticket_is_turned_away(lottery: Lottery, ticket: Ticket)
    requires
        !lottery.claimed,
        lottery.winner_id is Some,
        lottery.winner_id != Some(ticket.id),
    ensures
        claim_verdict(lottery, ticket) == Err::<Settlement, LotteryError>(
            LotteryError::InvalidWinner,
        ),
        after_claim(lottery, ticket) == lottery,
        moved_by_claim(lottery, ticket) == (Settlement { pool: 0, fee: 0, payout: 0 }),
{
}

/// A claim that goes through moves the whole pool and nothing more: what
/// the winner gets and what the fee recipient gets add up to what leaves
/// escrow.
pub proof fn lemma_claim_moves_the_pool(lottery: Lottery, ticket: Ticket)
    requires
        claim_verdict(lottery, ticket) is Ok,
        lottery.pool() <= u64::MAX,
    ensures
        ({
            let moved = moved_by_claim(lottery, ticket);
            &&& moved.pool == lottery.pool()
            &&& moved.fee == lottery.pool() / 10
            &&& moved.fee + moved.payout == moved.pool
        }),
{
}

/// No operation takes a lottery back: a sale, a draw and a claim each leave
/// it in its phase or move it on, and each keeps a valid lottery valid. The
/// winner, once drawn, and the payment, once made, stay.
pub proof fn lemma_lottery_only_moves_on(
    lottery: Lottery,
    digest: Seq<u8>,
    slot: u64,
    ticket: Ticket,
)
    requires
        lottery.wf(),
        lottery.last_ticket_id < u32::MAX,
    ensures
        ({
            let sold = after_sale(lottery);
            let drawn = after_draw(lottery, digest, slot);
            let settled = after_claim(lottery, ticket);
            &&& sold.wf() && drawn.wf() && settled.wf()
            &&& rank(sold.phase_of()) == rank(lottery.phase_of())
            &&& rank(lottery.phase_of()) <= rank(drawn.phase_of())
            &&& rank(lottery.phase_of()) <= rank(settled.phase_of())
            &&& lottery.winner_id is Some ==> {
                &&& sold == lottery
                &&& drawn == lottery
                &&& settled.winner_id == lottery.winner_id
            }
            &&& lottery.claimed ==> sold == lottery && drawn == lottery && settled == lottery
        }),
{
}

} // verus!
