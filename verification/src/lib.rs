//! State machine and fund accounting of a ticket lottery kept on a shared
//! ledger.
//!
//! A registry hands out lottery identifiers. A lottery sells numbered tickets
//! at a fixed price, draws one winning ticket number, and pays the pool out
//! once, less a fee. Every operation works on plain values: the caller loads
//! the records from the ledger, calls the operation, and stores the result.

pub mod draw;
pub mod error;
pub mod identity;
pub mod laws;
pub mod lifecycle;
pub mod record;
pub mod registry;
pub mod settlement;

pub use draw::{
    digest_prefix, draw_allowed, draw_with_digest, pick_winner, timestamp_bytes, winner_from_digest,
};
pub use error::LotteryError;
pub use identity::Identity;
pub use lifecycle::{buy_ticket, can_pay_in, create_lottery, sale_allowed};
pub use record::{Lottery, Phase, Ticket, Wallet};
pub use registry::{init_master, Master};
pub use settlement::{can_pay_out, claim_allowed, claim_prize, split, Settlement, FEE_PERCENT};
