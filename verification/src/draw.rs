//! Drawing the winner.
//!
//! The draw is pseudo-random and weak on purpose: it is computed from the
//! ledger's clock and its slot counter, which everybody can see and a block
//! producer can nudge. Whoever needs a stronger draw supplies a digest of
//! their own to [`draw_with_digest`].

use vstd::prelude::*;
use crate::error::LotteryError;
use crate::identity::Identity;
use crate::record::Lottery;

verus! {

/// The SHA-256 digest of a byte string.
pub uninterp spec fn sha256(data: Seq<u8>) -> Seq<u8>;

/// Hashes `data` with `anchor_lang::solana_program::hash::hash` and hands
/// back the bytes of the `Hash` that it returns. Taken on trust: the result
/// is the SHA-256 digest of `data`, a function of the bytes alone.
#[verifier::external_body]
fn sha256_digest(data: &[u8]) -> (digest: [u8; 32])
    ensures
        digest@ == sha256(data@),
{
    anchor_lang::solana_program::hash::hash(data).to_bytes()
}

/// A timestamp as the unsigned number with the same sixty-four bits.
pub open spec fn unsigned_of(t: i64) -> int {
    if t >= 0 {
        t as int
    } else {
        t + 0x1_0000_0000_0000_0000
    }
}

/// The eight bytes of a timestamp, the most significant first.
pub open spec fn timestamp_bytes_of(t: i64) -> Seq<u8> {
    let x = unsigned_of(t);
    seq![
        (x / 0x100_0000_0000_0000 % 256) as u8,
        (x / 0x1_0000_0000_0000 % 256) as u8,
        (x / 0x100_0000_0000 % 256) as u8,
        (x / 0x1_0000_0000 % 256) as u8,
        (x / 0x100_0000 % 256) as u8,
        (x / 0x1_0000 % 256) as u8,
        (x / 0x100 % 256) as u8,
        (x % 256) as u8,
    ]
}

/// The number that the first eight bytes of a digest spell, the least
/// significant byte first.
pub open spec fn digest_prefix_of(digest: Seq<u8>) -> int
    recommends
        digest.len() >= 8,
{
    digest[0] + digest[1] * 0x100 + digest[2] * 0x1_0000 + digest[3] * 0x100_0000 + digest[4]
        * 0x1_0000_0000 + digest[5] * 0x100_0000_0000 + digest[6] * 0x1_0000_0000_0000 + digest[7]
        * 0x100_0000_0000_0000
}

/// The winning ticket number among `tickets` tickets, for a digest and a
/// slot: the digest's prefix times the slot, cut to sixty-four bits, reduced
/// modulo 2^32 - 1 and then modulo the number of tickets, counted from 1.
pub open spec fn winner_of(digest: Seq<u8>, slot: u64, tickets: u32) -> int
    recommends
        digest.len() >= 8,
        tickets > 0,
{
    let product = digest_prefix_of(digest) * slot % 0x1_0000_0000_0000_0000;
    let reduced = product % 0xffff_ffff;
    reduced % (tickets as int) + 1
}

/// Why `lottery` refuses a draw, if it does: a lottery draws once, and only
/// if it has sold a ticket.
pub open spec fn draw_refusal(lottery: Lottery) -> Option<LotteryError> {
    if lottery.winner_id is Some {
        Some(LotteryError::WinnerAlreadyExists)
    } else if lottery.last_ticket_id == 0 {
        Some(LotteryError::NoTickets)
    } else {
        None
    }
}

/// What a draw on `lottery` comes to: the refusal, or the winning number.
pub open spec fn draw_verdict(
    lottery: Lottery,
    digest: Seq<u8>,
    slot: u64,
) -> Result<u32, LotteryError> {
    match draw_refusal(lottery) {
        Some(refusal) => Err(refusal),
        None => Ok(winner_of(digest, slot, lottery.last_ticket_id) as u32),
    }
}

/// The lottery after an attempt to draw its winner.
pub open spec fn after_draw(lottery: Lottery, digest: Seq<u8>, slot: u64) -> Lottery {
    match draw_verdict(lottery, digest, slot) {
        Ok(winner) => Lottery { winner_id: Some(winner), ..lottery },
        Err(_) => lottery,
    }
}

/// The winning number is the number of a ticket that was sold.
pub proof fn lemma_winner_in_range(digest: Seq<u8>, slot: u64, tickets: u32)
    requires
        tickets > 0,
    ensures
        1 <= winner_of(digest, slot, tickets) <= tickets,
{
}

/// The eight bytes of `unix_timestamp`, the most significant first.
pub fn timestamp_bytes(unix_timestamp: i64) -> (bytes: [u8; 8])
    ensures
        bytes@ == timestamp_bytes_of(unix_timestamp),
{
    let x: u64 = if unix_timestamp >= 0 {
        unix_timestamp as u64
    } else {
        ((unix_timestamp + i64::MAX) + 1) as u64 + 0x8000_0000_0000_0000
    };
    let bytes: [u8; 8] = [
        (x / 0x100_0000_0000_0000 % 256) as u8,
        (x / 0x1_0000_0000_0000 % 256) as u8,
        (x / 0x100_0000_0000 % 256) as u8,
        (x / 0x1_0000_0000 % 256) as u8,
        (x / 0x100_0000 % 256) as u8,
        (x / 0x1_0000 % 256) as u8,
        (x / 0x100 % 256) as u8,
        (x % 256) as u8,
    ];
    assert(bytes@ =~= timestamp_bytes_of(unix_timestamp));
    bytes
}

/// The number that the first eight bytes of `digest` spell, the least
/// significant byte first.
pub fn digest_prefix(digest: &[u8; 32]) -> (d: u64)
    ensures
        d == digest_prefix_of(digest@),
{
    digest[0] as u64 + digest[1] as u64 * 0x100 + digest[2] as u64 * 0x1_0000 + digest[3] as u64
        * 0x100_0000 + digest[4] as u64 * 0x1_0000_0000 + digest[5] as u64 * 0x100_0000_0000
        + digest[6] as u64 * 0x1_0000_0000_0000 + digest[7] as u64 * 0x100_0000_0000_0000
}

/// The winning ticket number among `tickets` tickets, for a digest and a
/// slot.
pub fn winner_from_digest(digest: &[u8; 32], slot: u64, tickets: u32) -> (winner: u32)
    requires
        tickets > 0,
    ensures
        winner == winner_of(digest@, slot, tickets),
        1 <= winner <= tickets,
{
    let product: u64 = digest_prefix(digest).wrapping_mul(slot);
    let reduced: u32 = (product % 0xffff_ffff) as u32;
    reduced % tickets + 1
}

/// Tells whether `lottery` would draw now, and why not if it would not.
pub fn draw_allowed(lottery: &Lottery) -> (res: Result<(), LotteryError>)
    ensures
        res == (match draw_refusal(*lottery) {
            Some(refusal) => Err::<(), LotteryError>(refusal),
            None => Ok(()),
        }),
{
    if lottery.winner_id.is_some() {
        Err(LotteryError::WinnerAlreadyExists)
    } else if lottery.last_ticket_id == 0 {
        Err(LotteryError::NoTickets)
    } else {
        Ok(())
    }
}

/// Draws the winner of `lottery`, as its creator `caller` asks, from a
/// digest that the caller supplies.
///
/// A lottery that has a winner, or has sold no ticket, refuses and stays as
/// it is. Otherwise the winning number is written into the lottery, where it
/// stays for good, and returned.
pub fn draw_with_digest(
    lottery: &mut Lottery,
    caller: &Identity,
    digest: &[u8; 32],
    slot: u64,
) -> (res: Result<u32, LotteryError>)
    requires
        old(lottery).authority == *caller,
    ensures
        res == draw_verdict(*old(lottery), digest@, slot),
        *final(lottery) == after_draw(*old(lottery), digest@, slot),
        res matches Ok(winner) ==> 1 <= winner <= old(lottery).last_ticket_id,
        old(lottery).wf() ==> final(lottery).wf(),
{
    match draw_allowed(lottery) {
        Err(refusal) => Err(refusal),
        Ok(()) => {
            let winner = winner_from_digest(digest, slot, lottery.last_ticket_id);
            lottery.winner_id = Some(winner);
            Ok(winner)
        },
    }
}

/// Draws the winner of `lottery`, as its creator `caller` asks, from the
/// ledger's clock: `unix_timestamp` in seconds and the slot counter `slot`.
///
/// The digest of the draw is the SHA-256 digest of the timestamp's eight
/// bytes, the most significant first. The rest is [`draw_with_digest`].
pub fn pick_winner(
    lottery: &mut Lottery,
    caller: &Identity,
    unix_timestamp: i64,
    slot: u64,
) -> (res: Result<u32, LotteryError>)
    requires
        old(lottery).authority == *caller,
    ensures
        res == draw_verdict(*old(lottery), sha256(timestamp_bytes_of(unix_timestamp)), slot),
        *final(lottery) == after_draw(
            *old(lottery),
            sha256(timestamp_bytes_of(unix_timestamp)),
            slot,
        ),
        res matches Ok(winner) ==> 1 <= winner <= old(lottery).last_ticket_id,
        old(lottery).wf() ==> final(lottery).wf(),
{
    match draw_allowed(lottery) {
        Err(refusal) => Err(refusal),
        Ok(()) => {
            let bytes = timestamp_bytes(unix_timestamp);
            let digest = sha256_digest(bytes.as_slice());
            draw_with_digest(lottery, caller, &digest, slot)
        },
    }
}

} // verus!
