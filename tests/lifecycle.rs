use raffle::address::collection_address;
use raffle::randomness::callback_identity;
use raffle::{
    buy_ticket, callback_choose_winner, claim_winnings, commit_winner, initialize_config,
    initialize_lottery, restart_lottery, BoughtTicket, CollectionRef, ErrorCode,
    InitializedConfig, Identity, SelectWinner, TicketProof, TokenLottery,
};

const START: i64 = 1_000;
const END: i64 = 2_000;

fn key(b: u8) -> Identity {
    Identity { bytes: [b; 32] }
}

/// Randomness whose only nonzero byte is the last, set to `k`: it draws `k`
/// from any larger number of entries.
fn pick(k: u8) -> [u8; 32] {
    let mut bytes = [0u8; 32];
    bytes[31] = k;
    bytes
}

fn program() -> Identity {
    key(7)
}

fn authority() -> Identity {
    key(1)
}

fn fresh(price: u64) -> TokenLottery {
    initialize_config(authority(), 254, START, END, price).0
}

fn with_sales(price: u64, n: u64) -> TokenLottery {
    let mut l = fresh(price);
    for _ in 0..n {
        buy_ticket(&mut l, START).unwrap();
    }
    l
}

fn resolved(price: u64, n: u64, randomness: [u8; 32]) -> TokenLottery {
    let mut l = with_sales(price, n);
    let oracle = callback_identity(&program());
    callback_choose_winner(&mut l, &program(), &oracle, &randomness).unwrap();
    l
}

fn winning_proof(l: &TokenLottery, name: &str) -> TicketProof {
    let (collection, _) = collection_address(&program(), l.round_id).unwrap();
    TicketProof {
        collection: Some(CollectionRef { verified: true, key: collection }),
        name: name.to_string(),
        holder: key(42),
        amount: 1,
    }
}

#[test]
fn initialize_config_starts_round_zero() {
    let (l, event) = initialize_config(authority(), 254, START, END, 10);
    assert_eq!(l.round_id, 0);
    assert_eq!(l.total_tickets, 0);
    assert_eq!(l.pot_amount, 0);
    assert_eq!(l.winner, 0);
    assert!(!l.winner_chosen);
    assert_eq!(l.ticket_price, 10);
    assert_eq!(l.authority, authority());
    assert_eq!(l.bump, 254);
    assert_eq!(event, InitializedConfig { start_time: START, end_time: END, price: 10 });
}

#[test]
fn initialize_lottery_names_the_round_collection() {
    let mut l = fresh(10);
    let first = initialize_lottery(&l, &program()).unwrap();
    assert_eq!(first.collection_mint, collection_address(&program(), 0).unwrap().0);
    restart_lottery(&mut l, START, END, 10).unwrap();
    let second = initialize_lottery(&l, &program()).unwrap();
    assert_eq!(second.collection_mint, collection_address(&program(), 1).unwrap().0);
    assert_ne!(first.collection_mint, second.collection_mint);
}

#[test]
fn buy_ticket_counts_and_names_each_entry() {
    let mut l = fresh(10);
    for k in 0..5u64 {
        let before = l;
        let issue = buy_ticket(&mut l, START + 1).unwrap();
        assert_eq!(l.total_tickets, before.total_tickets + 1);
        assert_eq!(l.pot_amount, before.pot_amount + 10);
        assert_eq!(issue.index, k);
        assert_eq!(issue.name, format!("Token Lottery Ticket #{}", k));
        assert_eq!(issue.price, 10);
        assert_eq!(issue.event, BoughtTicket { price: 10, current_total_tickets: k + 1 });
        assert_eq!(issue.ticket_seeds, vec![0u64.to_le_bytes().to_vec(), k.to_le_bytes().to_vec()]);
        assert_eq!(
            issue.collection_seeds,
            vec![b"collection_mint".to_vec(), 0u64.to_le_bytes().to_vec()]
        );
    }
}

#[test]
fn buy_ticket_accepts_both_ends_of_the_window() {
    let mut l = fresh(3);
    assert!(buy_ticket(&mut l, START).is_ok());
    assert!(buy_ticket(&mut l, END).is_ok());
    assert_eq!(l.total_tickets, 2);
    assert_eq!(l.pot_amount, 6);
}

#[test]
fn buy_ticket_one_second_early_is_refused() {
    let mut l = fresh(10);
    let before = l;
    assert_eq!(buy_ticket(&mut l, START - 1).unwrap_err(), ErrorCode::LotteryNotOpen);
    assert_eq!(l, before);
}

#[test]
fn buy_ticket_after_the_window_is_refused() {
    let mut l = with_sales(10, 2);
    let before = l;
    for now in [END + 1, END + 1_000, i64::MAX, i64::MIN] {
        assert_eq!(buy_ticket(&mut l, now).unwrap_err(), ErrorCode::LotteryNotOpen);
        assert_eq!(l, before);
    }
}

#[test]
fn buy_ticket_refuses_a_pot_overflow() {
    let mut l = fresh(u64::MAX);
    buy_ticket(&mut l, START).unwrap();
    let before = l;
    assert_eq!(buy_ticket(&mut l, START).unwrap_err(), ErrorCode::ArithmeticOverflow);
    assert_eq!(l, before);
}

#[test]
fn buy_ticket_refuses_a_counter_overflow() {
    let mut l = fresh(0);
    l.total_tickets = u64::MAX;
    let before = l;
    assert_eq!(buy_ticket(&mut l, START).unwrap_err(), ErrorCode::ArithmeticOverflow);
    assert_eq!(l, before);
}

#[test]
fn pot_equals_sales_times_price() {
    let l = with_sales(7, 9);
    assert_eq!(l.pot_amount, 63);
    assert_eq!(l.pot_amount, l.total_tickets * l.ticket_price);
}

#[test]
fn commit_winner_builds_the_request() {
    let l = with_sales(10, 3);
    let queue = key(9);
    let config = key(8);
    let (request, event) =
        commit_winner(&l, &authority(), END, 5, &queue, &program(), &config).unwrap();
    assert_eq!(request.payer, authority());
    assert_eq!(request.oracle_queue, queue);
    assert_eq!(request.callback_program, program());
    assert_eq!(request.callback_account, config);
    assert_eq!(request.caller_seed, [5u8; 32]);
    assert_eq!(event.oracle_queue, queue);
}

#[test]
fn commit_winner_by_a_stranger_is_refused() {
    let l = with_sales(10, 3);
    let r = commit_winner(&l, &key(2), END + 5, 1, &key(9), &program(), &key(8));
    assert_eq!(r.unwrap_err(), ErrorCode::NotAuthorized);
    assert!(!l.winner_chosen);
}

#[test]
fn commit_winner_before_the_end_is_refused() {
    let l = with_sales(10, 3);
    let r = commit_winner(&l, &authority(), END - 1, 1, &key(9), &program(), &key(8));
    assert_eq!(r.unwrap_err(), ErrorCode::LotteryNotCompleted);
}

#[test]
fn commit_winner_after_the_draw_is_refused() {
    let l = resolved(10, 3, pick(1));
    let r = commit_winner(&l, &authority(), END, 1, &key(9), &program(), &key(8));
    assert_eq!(r.unwrap_err(), ErrorCode::WinnerChosen);
}

#[test]
fn callback_sets_the_winner() {
    let mut l = with_sales(10, 3);
    let oracle = callback_identity(&program());
    let event = callback_choose_winner(&mut l, &program(), &oracle, &pick(1)).unwrap();
    assert_eq!(l.winner, 1);
    assert!(l.winner_chosen);
    assert_eq!(event, SelectWinner { winner: 1, winner_chosen: true });
}

#[test]
fn callback_from_a_spoofed_caller_is_refused() {
    let mut l = with_sales(10, 3);
    let before = l;
    let r = callback_choose_winner(&mut l, &program(), &key(3), &pick(1));
    assert_eq!(r.unwrap_err(), ErrorCode::NotAuthorized);
    assert_eq!(l, before);
}

#[test]
fn callback_twice_is_refused() {
    let mut l = resolved(10, 3, pick(1));
    let before = l;
    let oracle = callback_identity(&program());
    let r = callback_choose_winner(&mut l, &program(), &oracle, &[2u8; 32]);
    assert_eq!(r.unwrap_err(), ErrorCode::WinnerChosen);
    assert_eq!(l, before);
}

#[test]
fn callback_without_entries_is_refused() {
    let mut l = fresh(10);
    let oracle = callback_identity(&program());
    let r = callback_choose_winner(&mut l, &program(), &oracle, &[2u8; 32]);
    assert_eq!(r.unwrap_err(), ErrorCode::LotteryNotCompleted);
    assert!(!l.winner_chosen);
}

#[test]
fn callback_winner_is_an_entry_for_many_sizes() {
    let oracle = callback_identity(&program());
    for n in [1u64, 2, 3, 17, 255, 256, 257, 1_000] {
        for fill in [0u8, 1, 128, 254, 255] {
            let mut l = fresh(0);
            l.total_tickets = n;
            callback_choose_winner(&mut l, &program(), &oracle, &[fill; 32]).unwrap();
            assert!(l.winner < n);
        }
    }
}

#[test]
fn full_round_pays_the_winner_once() {
    let mut l = fresh(10);
    for _ in 0..3 {
        buy_ticket(&mut l, START + 10).unwrap();
    }
    assert_eq!(l.pot_amount, 30);
    assert_eq!(l.total_tickets, 3);
    assert!(commit_winner(&l, &authority(), END, 0, &key(9), &program(), &key(8)).is_ok());
    let oracle = callback_identity(&program());
    callback_choose_winner(&mut l, &program(), &oracle, &pick(1)).unwrap();
    assert_eq!(l.winner, 1);
    assert!(l.winner_chosen);
    let proof = winning_proof(&l, "Token Lottery Ticket #1\0\0\0\0\0\0\0\0\0");
    let payout = claim_winnings(&mut l, &program(), &proof).unwrap();
    assert_eq!(payout.amount, 30);
    assert_eq!(payout.event.ticket_name, "Token Lottery Ticket #1");
    assert_eq!(payout.event.destination_account, key(42));
    assert_eq!(l.pot_amount, 0);
    let before = l;
    assert_eq!(claim_winnings(&mut l, &program(), &proof).unwrap_err(), ErrorCode::PrizeClaimed);
    assert_eq!(l, before);
}

#[test]
fn claim_before_the_draw_is_refused() {
    let mut l = with_sales(10, 3);
    let proof = winning_proof(&l, "Token Lottery Ticket #0");
    assert_eq!(claim_winnings(&mut l, &program(), &proof).unwrap_err(), ErrorCode::WinnerNotChosen);
    assert_eq!(l.pot_amount, 30);
}

#[test]
fn claim_with_an_unverified_entry_is_refused() {
    let mut l = resolved(10, 3, pick(1));
    let mut proof = winning_proof(&l, "Token Lottery Ticket #1");
    proof.collection = Some(CollectionRef { verified: false, key: proof.collection.unwrap().key });
    assert_eq!(claim_winnings(&mut l, &program(), &proof).unwrap_err(), ErrorCode::NotVerifiedTicket);
    proof.collection = None;
    assert_eq!(claim_winnings(&mut l, &program(), &proof).unwrap_err(), ErrorCode::NotVerifiedTicket);
    assert_eq!(l.pot_amount, 30);
}

#[test]
fn claim_with_another_collection_is_refused() {
    let mut l = resolved(10, 3, pick(1));
    let mut proof = winning_proof(&l, "Token Lottery Ticket #1");
    let stale = collection_address(&program(), l.round_id + 1).unwrap().0;
    proof.collection = Some(CollectionRef { verified: true, key: stale });
    assert_eq!(claim_winnings(&mut l, &program(), &proof).unwrap_err(), ErrorCode::IncorrectTicket);
    assert_eq!(l.pot_amount, 30);
}

#[test]
fn claim_with_a_losing_entry_is_refused() {
    let mut l = resolved(10, 3, pick(1));
    for name in ["Token Lottery Ticket #0", "Token Lottery Ticket #10", "Token Lottery Ticket #", ""] {
        let proof = winning_proof(&l, name);
        assert_eq!(claim_winnings(&mut l, &program(), &proof).unwrap_err(), ErrorCode::IncorrectTicket);
    }
    assert_eq!(l.pot_amount, 30);
}

#[test]
fn claim_without_holding_the_entry_is_refused() {
    let mut l = resolved(10, 3, pick(1));
    let mut proof = winning_proof(&l, "Token Lottery Ticket #1");
    proof.amount = 0;
    assert_eq!(claim_winnings(&mut l, &program(), &proof).unwrap_err(), ErrorCode::IncorrectTicket);
    assert_eq!(l.pot_amount, 30);
}

#[test]
fn restart_resets_the_round() {
    let mut l = resolved(10, 3, pick(1));
    restart_lottery(&mut l, 5_000, 6_000, 25).unwrap();
    assert_eq!(l.round_id, 1);
    assert_eq!(l.total_tickets, 0);
    assert_eq!(l.pot_amount, 0);
    assert_eq!(l.winner, 0);
    assert!(!l.winner_chosen);
    assert_eq!(l.start_time, 5_000);
    assert_eq!(l.end_time, 6_000);
    assert_eq!(l.ticket_price, 25);
    assert_eq!(l.authority, authority());
    assert_eq!(l.bump, 254);
}

#[test]
fn restart_blocks_claims_of_the_old_round() {
    let mut l = resolved(10, 3, pick(1));
    let proof = winning_proof(&l, "Token Lottery Ticket #1");
    restart_lottery(&mut l, START, END, 10).unwrap();
    assert_eq!(claim_winnings(&mut l, &program(), &proof).unwrap_err(), ErrorCode::WinnerNotChosen);
}

#[test]
fn restart_at_the_last_round_id_is_refused() {
    let mut l = fresh(10);
    l.round_id = u64::MAX;
    let before = l;
    assert_eq!(restart_lottery(&mut l, 1, 2, 3).unwrap_err(), ErrorCode::ArithmeticOverflow);
    assert_eq!(l, before);
}

#[test]
fn claim_after_payout_reports_ticket_errors_first() {
    let mut l = resolved(10, 3, pick(1));
    let good = winning_proof(&l, "Token Lottery Ticket #1");
    claim_winnings(&mut l, &program(), &good).unwrap();
    assert_eq!(l.pot_amount, 0);

    let mut missing = good.clone();
    missing.collection = None;
    assert_eq!(claim_winnings(&mut l, &program(), &missing).unwrap_err(), ErrorCode::NotVerifiedTicket);

    let mut unverified = good.clone();
    unverified.collection = Some(CollectionRef { verified: false, key: good.collection.unwrap().key });
    assert_eq!(claim_winnings(&mut l, &program(), &unverified).unwrap_err(), ErrorCode::NotVerifiedTicket);

    let mut stale = good.clone();
    let other = collection_address(&program(), l.round_id + 1).unwrap().0;
    stale.collection = Some(CollectionRef { verified: true, key: other });
    assert_eq!(claim_winnings(&mut l, &program(), &stale).unwrap_err(), ErrorCode::IncorrectTicket);

    let wrong_name = winning_proof(&l, "Token Lottery Ticket #2");
    assert_eq!(claim_winnings(&mut l, &program(), &wrong_name).unwrap_err(), ErrorCode::IncorrectTicket);

    let mut empty = good.clone();
    empty.amount = 0;
    assert_eq!(claim_winnings(&mut l, &program(), &empty).unwrap_err(), ErrorCode::IncorrectTicket);

    assert_eq!(claim_winnings(&mut l, &program(), &good).unwrap_err(), ErrorCode::PrizeClaimed);
    assert_eq!(l.pot_amount, 0);
}

#[test]
fn claim_of_an_empty_pot_is_refused() {
    let mut l = resolved(0, 2, [0u8; 32]);
    let proof = winning_proof(&l, "Token Lottery Ticket #0");
    assert_eq!(claim_winnings(&mut l, &program(), &proof).unwrap_err(), ErrorCode::PrizeClaimed);
}

#[test]
fn buy_ticket_after_the_draw_is_refused() {
    let mut l = resolved(10, 3, pick(1));
    let before = l;
    assert_eq!(buy_ticket(&mut l, END).unwrap_err(), ErrorCode::WinnerChosen);
    assert_eq!(l, before);
    assert_eq!(buy_ticket(&mut l, END + 1).unwrap_err(), ErrorCode::LotteryNotOpen);
}

#[test]
fn pot_cannot_be_refilled_and_claimed_twice() {
    let mut l = with_sales(10, 2);
    assert!(commit_winner(&l, &authority(), END, 0, &key(9), &program(), &key(8)).is_ok());
    let oracle = callback_identity(&program());
    callback_choose_winner(&mut l, &program(), &oracle, &pick(1)).unwrap();
    let proof = winning_proof(&l, "Token Lottery Ticket #1");
    assert_eq!(claim_winnings(&mut l, &program(), &proof).unwrap().amount, 20);
    assert_eq!(buy_ticket(&mut l, END).unwrap_err(), ErrorCode::WinnerChosen);
    assert_eq!(l.pot_amount, 0);
    assert_eq!(claim_winnings(&mut l, &program(), &proof).unwrap_err(), ErrorCode::PrizeClaimed);
}
