//! The reasons for which the lottery refuses an operation.

use vstd::prelude::*;

verus! {

/// A refusal. The records are left as they were before the call.
#[derive(Clone, Copy, Debug, PartialEq, Eq, Structural)]
pub enum LotteryError {
    /// A winner has been drawn already: no ticket is sold and no second
    /// draw is made.
    WinnerAlreadyExists,
    /// No ticket has been sold, so there is nothing to draw from.
    NoTickets,
    /// The prize has been paid out already.
    AlreadyClaimed,
    /// The prize is claimed before a winner has been drawn.
    WinnerNotChosen,
    /// The ticket presented is not the winning ticket.
    InvalidWinner,
}

} // verus!
