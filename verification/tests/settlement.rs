use lottery::{
    buy_ticket, can_pay_out, claim_allowed, claim_prize, create_lottery, init_master, pick_winner,
    split, Identity, Lottery, LotteryError, Phase, Settlement, Ticket, Wallet, FEE_PERCENT,
};

fn who(tag: u8) -> Identity {
    Identity { bytes: [tag; 32] }
}

fn drawn_lottery(price: u64, tickets: u32, winner: u32) -> Lottery {
    Lottery {
        id: 6,
        authority: who(1),
        ticket_price: price,
        last_ticket_id: tickets,
        winner_id: Some(winner),
        claimed: false,
    }
}

fn ticket_of(id: u32, owner: Identity) -> Ticket {
    Ticket { id, authority: owner, lottery_id: 6 }
}

#[test]
fn fee_is_ten_percent() {
    assert_eq!(FEE_PERCENT, 10);
    assert_eq!(split(300), Settlement { pool: 300, fee: 30, payout: 270 });
    assert_eq!(split(150), Settlement { pool: 150, fee: 15, payout: 135 });
}

#[test]
fn fee_is_rounded_down() {
    assert_eq!(split(0), Settlement { pool: 0, fee: 0, payout: 0 });
    assert_eq!(split(9), Settlement { pool: 9, fee: 0, payout: 9 });
    assert_eq!(split(10), Settlement { pool: 10, fee: 1, payout: 9 });
    assert_eq!(split(99), Settlement { pool: 99, fee: 9, payout: 90 });
    assert_eq!(split(1_999), Settlement { pool: 1_999, fee: 199, payout: 1_800 });
}

#[test]
fn largest_pool_is_split_without_overflow() {
    let s = split(u64::MAX);
    assert_eq!(s.fee, u64::MAX / 10);
    assert_eq!(s.payout, u64::MAX - u64::MAX / 10);
    assert_eq!(s.fee as u128, u64::MAX as u128 * 10 / 100);
}

#[test]
fn settlement_of_three_tickets_at_a_hundred() {
    let mut lottery = drawn_lottery(100, 3, 2);
    let mut escrow = 300u64;
    let mut winner = Wallet { key: who(2), balance: 1_000 };
    let mut fee_recipient = Wallet { key: who(9), balance: 40 };
    let settled = claim_prize(
        &mut lottery,
        &ticket_of(2, who(2)),
        &mut escrow,
        &mut winner,
        &mut fee_recipient,
    );
    assert_eq!(settled, Ok(Settlement { pool: 300, fee: 30, payout: 270 }));
    assert_eq!(winner, Wallet { key: who(2), balance: 1_270 });
    assert_eq!(fee_recipient, Wallet { key: who(9), balance: 70 });
    assert_eq!(escrow, 0);
    assert!(lottery.claimed);
    assert_eq!(lottery.phase(), Phase::Settled);
}

#[test]
fn escrow_keeps_what_is_not_pool() {
    let mut lottery = drawn_lottery(100, 3, 1);
    let before = lottery;
    let mut escrow = 1_300u64;
    let mut winner = Wallet { key: who(2), balance: 0 };
    let mut fee_recipient = Wallet { key: who(9), balance: 0 };
    claim_prize(&mut lottery, &ticket_of(1, who(2)), &mut escrow, &mut winner, &mut fee_recipient)
        .unwrap();
    assert_eq!(escrow, 1_000);
    assert_eq!(winner.balance + fee_recipient.balance, 300);
    assert_eq!(lottery, Lottery { claimed: true, ..before });
}

#[test]
fn second_claim_is_refused() {
    let mut lottery = drawn_lottery(100, 3, 2);
    let mut escrow = 300u64;
    let mut winner = Wallet { key: who(2), balance: 0 };
    let mut fee_recipient = Wallet { key: who(9), balance: 0 };
    let ticket = ticket_of(2, who(2));
    assert!(claim_prize(&mut lottery, &ticket, &mut escrow, &mut winner, &mut fee_recipient)
        .is_ok());
    let settled = lottery;
    assert_eq!(
        claim_prize(&mut lottery, &ticket, &mut escrow, &mut winner, &mut fee_recipient),
        Err(LotteryError::AlreadyClaimed)
    );
    assert_eq!(lottery, settled);
    assert_eq!((escrow, winner.balance, fee_recipient.balance), (0, 270, 30));
    let mut loser = Wallet { key: who(3), balance: 5 };
    assert_eq!(
        claim_prize(&mut lottery, &ticket_of(1, who(3)), &mut escrow, &mut loser, &mut fee_recipient),
        Err(LotteryError::AlreadyClaimed)
    );
    assert_eq!(loser.balance, 5);
}

#[test]
fn claim_before_the_draw_is_refused() {
    let mut lottery = Lottery { winner_id: None, ..drawn_lottery(100, 3, 1) };
    let before = lottery;
    let mut escrow = 300u64;
    let mut winner = Wallet { key: who(2), balance: 11 };
    let mut fee_recipient = Wallet { key: who(9), balance: 22 };
    assert_eq!(
        claim_prize(&mut lottery, &ticket_of(1, who(2)), &mut escrow, &mut winner, &mut fee_recipient),
        Err(LotteryError::WinnerNotChosen)
    );
    assert_eq!(lottery, before);
    assert_eq!((escrow, winner.balance, fee_recipient.balance), (300, 11, 22));
}

#[test]
fn losing_ticket_is_turned_away() {
    let mut lottery = drawn_lottery(100, 3, 2);
    let before = lottery;
    let mut escrow = 300u64;
    let mut fee_recipient = Wallet { key: who(9), balance: 22 };
    for id in [1u32, 3] {
        let mut claimant = Wallet { key: who(id as u8), balance: 11 };
        assert_eq!(
            claim_prize(
                &mut lottery,
                &ticket_of(id, who(id as u8)),
                &mut escrow,
                &mut claimant,
                &mut fee_recipient
            ),
            Err(LotteryError::InvalidWinner)
        );
        assert_eq!(claimant, Wallet { key: who(id as u8), balance: 11 });
    }
    assert_eq!(lottery, before);
    assert_eq!((escrow, fee_recipient.balance), (300, 22));
}

#[test]
fn refusals_come_in_order() {
    let mut escrow = 0u64;
    let mut claimant = Wallet { key: who(2), balance: 0 };
    let mut fee_recipient = Wallet { key: who(9), balance: 0 };
    let mut paid = Lottery { claimed: true, ..drawn_lottery(1, 3, 2) };
    assert_eq!(
        claim_prize(&mut paid, &ticket_of(1, who(2)), &mut escrow, &mut claimant, &mut fee_recipient),
        Err(LotteryError::AlreadyClaimed)
    );
    let mut odd = Lottery { claimed: true, winner_id: None, ..drawn_lottery(1, 3, 2) };
    assert_eq!(
        claim_prize(&mut odd, &ticket_of(1, who(2)), &mut escrow, &mut claimant, &mut fee_recipient),
        Err(LotteryError::AlreadyClaimed)
    );
}

#[test]
fn free_lottery_pays_nothing() {
    let mut lottery = drawn_lottery(0, 4, 4);
    let mut escrow = 17u64;
    let mut winner = Wallet { key: who(2), balance: 3 };
    let mut fee_recipient = Wallet { key: who(9), balance: 4 };
    assert_eq!(
        claim_prize(&mut lottery, &ticket_of(4, who(2)), &mut escrow, &mut winner, &mut fee_recipient),
        Ok(Settlement { pool: 0, fee: 0, payout: 0 })
    );
    assert_eq!((escrow, winner.balance, fee_recipient.balance), (17, 3, 4));
    assert!(lottery.claimed);
}

#[test]
fn can_pay_out_tests_the_funds() {
    let lottery = drawn_lottery(100, 3, 2);
    let winner = Wallet { key: who(2), balance: 0 };
    let fee_recipient = Wallet { key: who(9), balance: 0 };
    assert!(can_pay_out(&lottery, 300, &winner, &fee_recipient));
    assert!(can_pay_out(&lottery, 301, &winner, &fee_recipient));
    assert!(!can_pay_out(&lottery, 299, &winner, &fee_recipient));
    let full = Wallet { key: who(2), balance: u64::MAX - 269 };
    assert!(!can_pay_out(&lottery, 300, &full, &fee_recipient));
    let nearly = Wallet { key: who(2), balance: u64::MAX - 270 };
    assert!(can_pay_out(&lottery, 300, &nearly, &fee_recipient));
    assert!(!can_pay_out(&lottery, 300, &winner, &Wallet { key: who(9), balance: u64::MAX - 29 }));
    assert!(can_pay_out(&lottery, 300, &winner, &Wallet { key: who(9), balance: u64::MAX - 30 }));
}

#[test]
fn can_pay_out_sees_a_pool_too_large() {
    let lottery = drawn_lottery(u64::MAX, 2, 1);
    let winner = Wallet { key: who(2), balance: 0 };
    let fee_recipient = Wallet { key: who(9), balance: 0 };
    assert!(!can_pay_out(&lottery, u64::MAX, &winner, &fee_recipient));
    let largest = drawn_lottery(u64::MAX, 1, 1);
    assert!(can_pay_out(&largest, u64::MAX, &winner, &fee_recipient));
}

#[test]
fn three_buyers_one_winner() {
    let mut master = init_master();
    let creator = who(1);
    let mut lottery = create_lottery(&mut master, creator, 50);
    let mut escrow = 0u64;
    let mut wallets = vec![
        Wallet { key: who(11), balance: 500 },
        Wallet { key: who(12), balance: 500 },
        Wallet { key: who(13), balance: 500 },
    ];
    let mut tickets = Vec::new();
    for wallet in wallets.iter_mut() {
        tickets.push(buy_ticket(&mut lottery, wallet, &mut escrow).unwrap());
        assert_eq!(wallet.balance, 450);
    }
    assert_eq!(escrow, 150);
    assert_eq!(lottery.last_ticket_id, 3);
    assert_eq!(tickets.iter().map(|ticket| ticket.id).collect::<Vec<u32>>(), vec![1, 2, 3]);

    let winner_id = pick_winner(&mut lottery, &creator, 1_700_000_000, 250_000_000).unwrap();
    assert!((1..=3).contains(&winner_id));
    let mut late = Wallet { key: who(14), balance: 500 };
    assert_eq!(
        buy_ticket(&mut lottery, &mut late, &mut escrow),
        Err(LotteryError::WinnerAlreadyExists)
    );
    assert_eq!((late.balance, escrow), (500, 150));

    let mut fee_recipient = Wallet { key: who(99), balance: 0 };
    for (ticket, wallet) in tickets.iter().zip(wallets.iter_mut()) {
        if ticket.id != winner_id {
            assert_eq!(
                claim_prize(&mut lottery, ticket, &mut escrow, wallet, &mut fee_recipient),
                Err(LotteryError::InvalidWinner)
            );
            assert_eq!(wallet.balance, 450);
        }
    }
    assert_eq!(escrow, 150);

    let index = (winner_id - 1) as usize;
    assert!(can_pay_out(&lottery, escrow, &wallets[index], &fee_recipient));
    let settled = claim_prize(
        &mut lottery,
        &tickets[index],
        &mut escrow,
        &mut wallets[index],
        &mut fee_recipient,
    );
    assert_eq!(settled, Ok(Settlement { pool: 150, fee: 15, payout: 135 }));
    assert_eq!(wallets[index].balance, 450 + 135);
    assert_eq!(fee_recipient.balance, 15);
    assert_eq!(escrow, 0);

    for (ticket, wallet) in tickets.iter().zip(wallets.iter_mut()) {
        assert_eq!(
            claim_prize(&mut lottery, ticket, &mut escrow, wallet, &mut fee_recipient),
            Err(LotteryError::AlreadyClaimed)
        );
    }
}

#[test]
fn claim_allowed_tells_the_refusal() {
    let lottery = drawn_lottery(100, 3, 2);
    assert_eq!(claim_allowed(&lottery, &ticket_of(2, who(2))), Ok(()));
    assert_eq!(claim_allowed(&lottery, &ticket_of(3, who(3))), Err(LotteryError::InvalidWinner));
    let open = Lottery { winner_id: None, ..lottery };
    assert_eq!(claim_allowed(&open, &ticket_of(2, who(2))), Err(LotteryError::WinnerNotChosen));
    let paid = Lottery { claimed: true, ..lottery };
    assert_eq!(claim_allowed(&paid, &ticket_of(2, who(2))), Err(LotteryError::AlreadyClaimed));
}
