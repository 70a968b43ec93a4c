//! The records that the lottery keeps on the ledger, and the accounts whose
//! balance it moves.

use vstd::prelude::*;
use crate::identity::Identity;

verus! {

/// Where a lottery stands in its life.
#[derive(Clone, Copy, Debug, PartialEq, Eq, Structural)]
pub enum Phase {
    /// Tickets are on sale and no winner has been drawn.
    Created,
    /// A winner has been drawn and the prize is still in escrow.
    Drawn,
    /// The prize has been paid out. Nothing changes from here on.
    Settled,
}

/// One lottery. The record is kept for good: it is never deleted.
#[derive(Clone, Copy, Debug, PartialEq, Eq)]
pub struct Lottery {
    /// The number that the registry gave this lottery.
    pub id: u32,
    /// Who created the lottery. Only they may draw the winner.
    pub authority: Identity,
    /// What one ticket costs, in the ledger's smallest unit of value.
    pub ticket_price: u64,
    /// How many tickets have been sold, which is also the number of the
    /// ticket sold last.
    pub last_ticket_id: u32,
    /// The number of the winning ticket, once it has been drawn.
    pub winner_id: Option<u32>,
    /// Whether the prize has been paid out.
    pub claimed: bool,
}

/// One ticket of one lottery. It is written once, when it is sold.
#[derive(Clone, Copy, Debug, PartialEq, Eq)]
pub struct Ticket {
    /// The number of the ticket within its lottery, counted from 1.
    pub id: u32,
    /// Who bought the ticket.
    pub authority: Identity,
    /// The lottery that sold the ticket.
    pub lottery_id: u32,
}

/// An account of a participant: who owns it and what it holds.
#[derive(Clone, Copy, Debug, PartialEq, Eq)]
pub struct Wallet {
    /// The owner of the account.
    pub key: Identity,
    /// The balance, in the ledger's smallest unit of value.
    pub balance: u64,
}

impl Lottery {
    /// What every lottery that the operations produce satisfies: a winning
    /// number names a ticket that was sold, and a prize is paid out only
    /// after a draw.
    pub open spec fn wf(&self) -> bool {
        &&& self.winner_id matches Some(w) ==> 1 <= w <= self.last_ticket_id
        &&& self.claimed ==> self.winner_id is Some
    }

    /// The phase as a function of the record.
    pub open spec fn phase_of(&self) -> Phase {
        if self.claimed {
            Phase::Settled
        } else if self.winner_id is Some {
            Phase::Drawn
        } else {
            Phase::Created
        }
    }

    /// What the buyers have paid in: the price of a ticket times the number
    /// of tickets sold.
    pub open spec fn pool(&self) -> int {
        self.ticket_price * self.last_ticket_id
    }

    /// The phase of the lottery.
    pub fn phase(&self) -> (p: Phase)
        ensures
            p == self.phase_of(),
    {
        if self.claimed {
            Phase::Settled
        } else if self.winner_id.is_some() {
            Phase::Drawn
        } else {
            Phase::Created
        }
    }

    /// Whether `who` created this lottery.
    pub fn is_authority(&self, who: &Identity) -> (r: bool)
        ensures
            r == (self.authority == *who),
    {
        self.authority.same(who)
    }
}

impl Ticket {
    /// Whether `who` bought this ticket.
    pub fn is_owner(&self, who: &Identity) -> (r: bool)
        ensures
            r == (self.authority == *who),
    {
        self.authority.same(who)
    }
}

} // verus!
