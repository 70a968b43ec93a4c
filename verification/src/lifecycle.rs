//! Opening a lottery and selling its tickets.

use vstd::prelude::*;
use crate::error::LotteryError;
use crate::identity::Identity;
use crate::record::{Lottery, Ticket, Wallet};
use crate::registry::Master;

verus! {

/// The lottery that `authority` opens with the number `id`: nothing sold,
/// nothing drawn, nothing paid.
pub open spec fn opened(id: u32, authority: Identity, ticket_price: u64) -> Lottery {
    Lottery { id, authority, ticket_price, last_ticket_id: 0, winner_id: None, claimed: false }
}

/// The registry after it has given out one more number.
pub open spec fn stepped(master: Master) -> Master
    recommends
        master.last_id < u32::MAX,
{
    Master { last_id: (master.last_id + 1) as u32 }
}

/// The lottery after one more ticket has been sold.
pub open spec fn sold_one(lottery: Lottery) -> Lottery
    recommends
        lottery.last_ticket_id < u32::MAX,
{
    Lottery { last_ticket_id: (lottery.last_ticket_id + 1) as u32, ..lottery }
}

/// The ticket that `lottery` sells next, if `buyer` is the one who buys it.
pub open spec fn next_ticket(lottery: Lottery, buyer: Identity) -> Ticket
    recommends
        lottery.last_ticket_id < u32::MAX,
{
    Ticket { id: (lottery.last_ticket_id + 1) as u32, authority: buyer, lottery_id: lottery.id }
}

/// What an attempt of `buyer` to buy a ticket of `lottery` comes to: the
/// ticket, or the refusal once the winner is drawn.
pub open spec fn sale_verdict(lottery: Lottery, buyer: Identity) -> Result<Ticket, LotteryError>
    recommends
        lottery.last_ticket_id < u32::MAX,
{
    if lottery.winner_id is Some {
        Err(LotteryError::WinnerAlreadyExists)
    } else {
        Ok(next_ticket(lottery, buyer))
    }
}

/// The lottery after an attempt to buy a ticket.
pub open spec fn after_sale(lottery: Lottery) -> Lottery
    recommends
        lottery.last_ticket_id < u32::MAX,
{
    if lottery.winner_id is Some {
        lottery
    } else {
        sold_one(lottery)
    }
}

/// What an attempt to buy a ticket of `lottery` moves from the buyer into
/// escrow: the price of a ticket, or nothing where the sale is refused.
pub open spec fn paid_for_ticket(lottery: Lottery) -> int {
    if lottery.winner_id is Some {
        0
    } else {
        lottery.ticket_price as int
    }
}

/// Whether `lottery` can sell one more ticket to the owner of `buyer`: a
/// ticket number is left, the buyer holds the price, and escrow has room for
/// it.
pub open spec fn sale_fits(lottery: Lottery, buyer: Wallet, escrow: u64) -> bool {
    &&& lottery.last_ticket_id < u32::MAX
    &&& lottery.ticket_price <= buyer.balance
    &&& escrow + lottery.ticket_price <= u64::MAX
}

/// Opens a lottery for `authority`, with tickets at `ticket_price`. The
/// registry numbers it: the new lottery gets the number after the one given
/// last. Any price is taken, zero too.
pub fn create_lottery(
    master: &mut Master,
    authority: Identity,
    ticket_price: u64,
) -> (lottery: Lottery)
    requires
        old(master).last_id < u32::MAX,
    ensures
        *final(master) == stepped(*old(master)),
        lottery == opened(final(master).last_id, authority, ticket_price),
        lottery.id == old(master).last_id + 1,
        lottery.wf(),
{
    let id = master.next_id();
    Lottery { id, authority, ticket_price, last_ticket_id: 0, winner_id: None, claimed: false }
}

/// Tells whether `lottery` sells tickets now, and why not if it does not.
pub fn sale_allowed(lottery: &Lottery) -> (res: Result<(), LotteryError>)
    ensures
        res is Ok <==> lottery.winner_id is None,
        res is Err ==> res == Err::<(), LotteryError>(LotteryError::WinnerAlreadyExists),
{
    if lottery.winner_id.is_some() {
        Err(LotteryError::WinnerAlreadyExists)
    } else {
        Ok(())
    }
}

/// Tests [`sale_fits`].
pub fn can_pay_in(lottery: &Lottery, buyer: &Wallet, escrow: u64) -> (r: bool)
    ensures
        r == sale_fits(*lottery, *buyer, escrow),
{
    lottery.last_ticket_id < u32::MAX && lottery.ticket_price <= buyer.balance
        && lottery.ticket_price <= u64::MAX - escrow
}

/// Sells the next ticket of `lottery` to the owner of the account `buyer`,
/// who pays its price into `escrow`.
///
/// While no winner is drawn the sale goes through: the price moves from the
/// buyer into escrow and the ticket gets the next number, in one step. After
/// the draw every sale is refused, and the lottery and the two balances stay
/// as they are. Nobody is kept from buying as many tickets as they like.
pub fn buy_ticket(
    lottery: &mut Lottery,
    buyer: &mut Wallet,
    escrow: &mut u64,
) -> (res: Result<Ticket, LotteryError>)
    requires
        old(lottery).winner_id is None ==> sale_fits(*old(lottery), *old(buyer), *old(escrow)),
    ensures
        res == sale_verdict(*old(lottery), old(buyer).key),
        *final(lottery) == after_sale(*old(lottery)),
        *final(buyer) == (Wallet {
            balance: (old(buyer).balance - paid_for_ticket(*old(lottery))) as u64,
            ..*old(buyer)
        }),
        *final(escrow) == *old(escrow) + paid_for_ticket(*old(lottery)),
        *final(escrow) - final(lottery).pool() == *old(escrow) - old(lottery).pool(),
        res matches Ok(ticket) ==> ticket.id == final(lottery).last_ticket_id,
        old(lottery).wf() ==> final(lottery).wf(),
{
    match sale_allowed(lottery) {
        Err(refusal) => Err(refusal),
        Ok(()) => {
            buyer.balance = buyer.balance - lottery.ticket_price;
            *escrow = *escrow + lottery.ticket_price;
            lottery.last_ticket_id = lottery.last_ticket_id + 1;
            proof {
                let price = lottery.ticket_price as int;
                let sold = old(lottery).last_ticket_id as int;
                assert(price * (sold + 1) == price * sold + price) by (nonlinear_arith);
            }
            Ok(Ticket { id: lottery.last_ticket_id, authority: buyer.key, lottery_id: lottery.id })
        },
    }
}

} // verus!
