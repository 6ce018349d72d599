//! The raffle's operations. Each takes the configuration record and the
//! facts of its invocation (time, caller, oracle answer, presented entry) as
//! plain values, checks them, and either changes the record and returns
//! what the caller must carry out, or fails and leaves the record as it was.
use vstd::prelude::*;

use crate::address::{
    collection_address, collection_seed_list, collection_seeds, program_address,
    seeds_view, ticket_seed_list, ticket_seeds,
};
use crate::identity::Identity;
use crate::naming::{names_ticket, strip_nul, ticket_name, ticket_name_of};
use crate::randomness::{callback_identity, draw, expand_seed, vrf_callback_identity, winner_index};
use crate::state::{
    BoughtTicket, ErrorCode, InitializedConfig, InitializedLottery, SelectWinner, TokenLottery,
    WinnerCommited, WinningsClaimed,
};

verus! {

/// The collection reference stored in an entry's metadata.
#[derive(Clone, Copy, Debug, PartialEq, Eq)]
pub struct CollectionRef {
    pub verified: bool,
    pub key: Identity,
}

/// What a claimant presents: the winning entry's metadata, and the token
/// account through which they hold the entry.
#[derive(Clone, Debug, PartialEq, Eq)]
pub struct TicketProof {
    pub collection: Option<CollectionRef>,
    /// The stored display name, NUL padding included.
    pub name: String,
    pub holder: Identity,
    /// Units of the entry that `holder` holds.
    pub amount: u64,
}

/// A sale decided: what must be minted and where, and the fee to deposit.
#[derive(Clone, Debug, PartialEq, Eq)]
pub struct TicketIssue {
    /// The entry's index: the count of entries sold before it.
    pub index: u64,
    pub name: String,
    pub ticket_seeds: Vec<Vec<u8>>,
    pub collection_seeds: Vec<Vec<u8>>,
    /// The fee that moves from the buyer to the vault.
    pub price: u64,
    pub event: BoughtTicket,
}

/// A request for randomness, to be sent to the oracle's queue.
#[derive(Clone, Copy, Debug, PartialEq, Eq)]
pub struct RandomnessRequest {
    pub payer: Identity,
    pub oracle_queue: Identity,
    /// The program the oracle calls back into.
    pub callback_program: Identity,
    pub caller_seed: [u8; 32],
    /// The configuration record, handed back to the callback as writable.
    pub callback_account: Identity,
}

/// A claim granted: the amount to move from the vault to the winner.
#[derive(Clone, Debug, PartialEq, Eq)]
pub struct Payout {
    pub amount: u64,
    pub event: WinningsClaimed,
}

pub open spec fn new_config(
    authority: Identity,
    bump: u8,
    start_time: i64,
    end_time: i64,
    price: u64,
) -> TokenLottery {
    TokenLottery {
        round_id: 0,
        winner: 0,
        winner_chosen: false,
        start_time,
        end_time,
        pot_amount: 0,
        total_tickets: 0,
        ticket_price: price,
        authority,
        bump,
    }
}

/// Why a purchase at time `now` is refused, if it is.
pub open spec fn buy_error(l: TokenLottery, now: i64) -> Option<ErrorCode> {
    if !l.is_open_at(now) {
        Some(ErrorCode::LotteryNotOpen)
    } else if l.winner_chosen {
        Some(ErrorCode::WinnerChosen)
    } else if l.pot_amount + l.ticket_price > u64::MAX || l.total_tickets + 1 > u64::MAX {
        Some(ErrorCode::ArithmeticOverflow)
    } else {
        None
    }
}

pub open spec fn after_buy(l: TokenLottery) -> TokenLottery {
    TokenLottery {
        pot_amount: (l.pot_amount + l.ticket_price) as u64,
        total_tickets: (l.total_tickets + 1) as u64,
        ..l
    }
}

/// Why a request for the draw is refused, if it is.
pub open spec fn commit_error(l: TokenLottery, caller: Identity, now: i64) -> Option<ErrorCode> {
    if caller@ != l.authority@ {
        Some(ErrorCode::NotAuthorized)
    } else if now < l.end_time {
        Some(ErrorCode::LotteryNotCompleted)
    } else if l.winner_chosen {
        Some(ErrorCode::WinnerChosen)
    } else {
        None
    }
}

/// Why an oracle callback is refused, if it is.
pub open spec fn resolve_error(l: TokenLottery, program: Identity, caller: Identity) -> Option<ErrorCode> {
    if caller@ != vrf_callback_identity(program@) {
        Some(ErrorCode::NotAuthorized)
    } else if l.winner_chosen {
        Some(ErrorCode::WinnerChosen)
    } else if l.total_tickets == 0 {
        Some(ErrorCode::LotteryNotCompleted)
    } else {
        None
    }
}

pub open spec fn after_resolve(l: TokenLottery, randomness: Seq<u8>) -> TokenLottery {
    TokenLottery { winner: draw(randomness, l.total_tickets) as u64, winner_chosen: true, ..l }
}

/// Whether `key` is the collection marker of the record's current round.
pub open spec fn is_round_collection(l: TokenLottery, program: Identity, key: Identity) -> bool {
    match program_address(collection_seeds(l.round_id), program@) {
        Some((k, _)) => k == key@,
        None => false,
    }
}

/// What is wrong with the presented entry, if anything: it must be verified
/// in the current round's collection, carry the winning entry's name, and be
/// held by the claimant.
pub open spec fn ticket_error(l: TokenLottery, program: Identity, t: TicketProof) -> Option<ErrorCode> {
    match t.collection {
        None => Some(ErrorCode::NotVerifiedTicket),
        Some(c) => {
            if !c.verified {
                Some(ErrorCode::NotVerifiedTicket)
            } else if !is_round_collection(l, program, c.key) {
                Some(ErrorCode::IncorrectTicket)
            } else if strip_nul(t.name@) != ticket_name_of(l.winner) {
                Some(ErrorCode::IncorrectTicket)
            } else if t.amount == 0 {
                Some(ErrorCode::IncorrectTicket)
            } else {
                None
            }
        },
    }
}

/// Why a claim with the presented entry is refused, if it is.
pub open spec fn claim_error(l: TokenLottery, program: Identity, t: TicketProof) -> Option<ErrorCode> {
    if !l.winner_chosen {
        Some(ErrorCode::WinnerNotChosen)
    } else if ticket_error(l, program, t) is Some {
        ticket_error(l, program, t)
    } else if l.pot_amount == 0 {
        Some(ErrorCode::PrizeClaimed)
    } else {
        None
    }
}

pub open spec fn after_claim(l: TokenLottery) -> TokenLottery {
    TokenLottery { pot_amount: 0, ..l }
}

pub open spec fn after_restart(l: TokenLottery, start_time: i64, end_time: i64, price: u64) -> TokenLottery {
    TokenLottery {
        round_id: (l.round_id + 1) as u64,
        winner: 0,
        winner_chosen: false,
        start_time,
        end_time,
        pot_amount: 0,
        total_tickets: 0,
        ticket_price: price,
        ..l
    }
}

/// Creates the configuration record for round 0, owned by `authority`.
pub fn initialize_config(
    authority: Identity,
    bump: u8,
    start_time: i64,
    end_time: i64,
    price: u64,
) -> (r: (TokenLottery, InitializedConfig))
    ensures
        r.0 == new_config(authority, bump, start_time, end_time, price),
        r.0.wf(),
        r.1 == (InitializedConfig { start_time, end_time, price }),
{
    let lottery = TokenLottery {
        round_id: 0,
        winner: 0,
        winner_chosen: false,
        start_time,
        end_time,
        pot_amount: 0,
        total_tickets: 0,
        ticket_price: price,
        authority,
        bump,
    };
    (lottery, InitializedConfig { start_time, end_time, price })
}

/// Locates the collection marker of the current round, to be created
/// there; `None` when no address can be derived for it.
pub fn initialize_lottery(lottery: &TokenLottery, program: &Identity) -> (r: Option<InitializedLottery>)
    ensures
        r is Some <==> program_address(collection_seeds(lottery.round_id), program@) is Some,
        r is Some ==> is_round_collection(*lottery, *program, r->Some_0.collection_mint),
{
    match collection_address(program, lottery.round_id) {
        Some((key, _bump)) => Some(InitializedLottery { collection_mint: key }),
        None => None,
    }
}

/// Sells the next entry at time `now`. Sales stop once the winner is drawn,
/// so a paid-out pot cannot be refilled within the round.
pub fn buy_ticket(lottery: &mut TokenLottery, now: i64) -> (r: Result<TicketIssue, ErrorCode>)
    ensures
        match r {
            Ok(issue) => {
                &&& buy_error(*old(lottery), now) is None
                &&& *final(lottery) == after_buy(*old(lottery))
                &&& issue.index == old(lottery).total_tickets
                &&& issue.name@ == ticket_name_of(old(lottery).total_tickets)
                &&& seeds_view(issue.ticket_seeds) == ticket_seeds(
                    old(lottery).round_id,
                    old(lottery).total_tickets,
                )
                &&& seeds_view(issue.collection_seeds) == collection_seeds(old(lottery).round_id)
                &&& issue.price == old(lottery).ticket_price
                &&& issue.event == (BoughtTicket {
                    price: old(lottery).ticket_price,
                    current_total_tickets: final(lottery).total_tickets,
                })
            },
            Err(e) => buy_error(*old(lottery), now) == Some(e) && *final(lottery) == *old(lottery),
        },
        r is Ok ==> final(lottery).total_tickets == old(lottery).total_tickets + 1
            && final(lottery).pot_amount == old(lottery).pot_amount + old(lottery).ticket_price,
        !old(lottery).is_open_at(now) ==> r == Err::<TicketIssue, ErrorCode>(
            ErrorCode::LotteryNotOpen,
        ),
        old(lottery).wf() ==> final(lottery).wf(),
{
    if now < lottery.start_time || now > lottery.end_time {
        return Err(ErrorCode::LotteryNotOpen);
    }
    if lottery.winner_chosen {
        return Err(ErrorCode::WinnerChosen);
    }
    let pot = match lottery.pot_amount.checked_add(lottery.ticket_price) {
        Some(p) => p,
        None => return Err(ErrorCode::ArithmeticOverflow),
    };
    let count = match lottery.total_tickets.checked_add(1) {
        Some(c) => c,
        None => return Err(ErrorCode::ArithmeticOverflow),
    };
    let index = lottery.total_tickets;
    let name = ticket_name(index);
    let ticket_seeds = ticket_seed_list(lottery.round_id, index);
    let collection_seeds = collection_seed_list(lottery.round_id);
    lottery.pot_amount = pot;
    lottery.total_tickets = count;
    let price = lottery.ticket_price;
    Ok(
        TicketIssue {
            index,
            name,
            ticket_seeds,
            collection_seeds,
            price,
            event: BoughtTicket { price, current_total_tickets: count },
        },
    )
}

/// Asks the oracle for the randomness that will settle the round. The
/// record is not changed: the draw happens when the oracle calls back.
pub fn commit_winner(
    lottery: &TokenLottery,
    caller: &Identity,
    now: i64,
    client_seed: u8,
    oracle_queue: &Identity,
    program: &Identity,
    config: &Identity,
) -> (r: Result<(RandomnessRequest, WinnerCommited), ErrorCode>)
    ensures
        match r {
            Ok((request, event)) => {
                &&& commit_error(*lottery, *caller, now) is None
                &&& request.payer == *caller
                &&& request.oracle_queue == *oracle_queue
                &&& request.callback_program == *program
                &&& request.callback_account == *config
                &&& forall|i: int| 0 <= i < 32 ==> request.caller_seed@[i] == client_seed
                &&& event.oracle_queue == *oracle_queue
            },
            Err(e) => commit_error(*lottery, *caller, now) == Some(e),
        },
{
    if !caller.same(&lottery.authority) {
        return Err(ErrorCode::NotAuthorized);
    }
    if now < lottery.end_time {
        return Err(ErrorCode::LotteryNotCompleted);
    }
    if lottery.winner_chosen {
        return Err(ErrorCode::WinnerChosen);
    }
    let request = RandomnessRequest {
        payer: *caller,
        oracle_queue: *oracle_queue,
        callback_program: *program,
        caller_seed: expand_seed(client_seed),
        callback_account: *config,
    };
    Ok((request, WinnerCommited { oracle_queue: *oracle_queue }))
}

/// The oracle's callback: draws the winner from `randomness`.
pub fn callback_choose_winner(
    lottery: &mut TokenLottery,
    program: &Identity,
    caller: &Identity,
    randomness: &[u8; 32],
) -> (r: Result<SelectWinner, ErrorCode>)
    ensures
        match r {
            Ok(event) => {
                &&& resolve_error(*old(lottery), *program, *caller) is None
                &&& *final(lottery) == after_resolve(*old(lottery), randomness@)
                &&& event == (SelectWinner { winner: final(lottery).winner, winner_chosen: true })
            },
            Err(e) => {
                &&& resolve_error(*old(lottery), *program, *caller) == Some(e)
                &&& *final(lottery) == *old(lottery)
            },
        },
        r is Ok ==> final(lottery).winner < final(lottery).total_tickets,
        old(lottery).winner_chosen ==> r is Err && *final(lottery) == *old(lottery),
        old(lottery).wf() ==> final(lottery).wf(),
{
    let oracle = callback_identity(program);
    if !caller.same(&oracle) {
        return Err(ErrorCode::NotAuthorized);
    }
    if lottery.winner_chosen {
        return Err(ErrorCode::WinnerChosen);
    }
    if lottery.total_tickets == 0 {
        return Err(ErrorCode::LotteryNotCompleted);
    }
    let winner = winner_index(randomness, lottery.total_tickets);
    lottery.winner = winner;
    lottery.winner_chosen = true;
    Ok(SelectWinner { winner, winner_chosen: true })
}

/// Pays the pot to the holder of the winning entry.
pub fn claim_winnings(lottery: &mut TokenLottery, program: &Identity, ticket: &TicketProof) -> (r:
    Result<Payout, ErrorCode>)
    ensures
        match r {
            Ok(payout) => {
                &&& claim_error(*old(lottery), *program, *ticket) is None
                &&& *final(lottery) == after_claim(*old(lottery))
                &&& payout.amount == old(lottery).pot_amount
                &&& payout.event.ticket_name@ == ticket_name_of(old(lottery).winner)
                &&& payout.event.destination_account == ticket.holder
            },
            Err(e) => {
                &&& claim_error(*old(lottery), *program, *ticket) == Some(e)
                &&& *final(lottery) == *old(lottery)
            },
        },
        r is Ok ==> final(lottery).pot_amount == 0,
        old(lottery).wf() ==> final(lottery).wf(),
{
    if !lottery.winner_chosen {
        return Err(ErrorCode::WinnerNotChosen);
    }
    let collection = match ticket.collection {
        Some(c) => c,
        None => return Err(ErrorCode::NotVerifiedTicket),
    };
    if !collection.verified {
        return Err(ErrorCode::NotVerifiedTicket);
    }
    match collection_address(program, lottery.round_id) {
        Some((key, _bump)) => {
            if !key.same(&collection.key) {
                return Err(ErrorCode::IncorrectTicket);
            }
        },
        None => return Err(ErrorCode::IncorrectTicket),
    }
    if !names_ticket(ticket.name.as_str(), lottery.winner) {
        return Err(ErrorCode::IncorrectTicket);
    }
    if ticket.amount == 0 {
        return Err(ErrorCode::IncorrectTicket);
    }
    if lottery.pot_amount == 0 {
        return Err(ErrorCode::PrizeClaimed);
    }
    let amount = lottery.pot_amount;
    lottery.pot_amount = 0;
    Ok(
        Payout {
            amount,
            event: WinningsClaimed { ticket_name: ticket_name(lottery.winner), destination_account: ticket.holder },
        },
    )
}

/// Starts the next round with a new window and price. The caller's key is
/// not checked here.
pub fn restart_lottery(
    lottery: &mut TokenLottery,
    new_start_time: i64,
    new_end_time: i64,
    new_ticket_price: u64,
) -> (r: Result<(), ErrorCode>)
    ensures
        r is Ok <==> old(lottery).round_id < u64::MAX,
        r is Ok ==> *final(lottery) == after_restart(
            *old(lottery),
            new_start_time,
            new_end_time,
            new_ticket_price,
        ),
        r is Ok ==> {
            &&& final(lottery).round_id > old(lottery).round_id
            &&& final(lottery).total_tickets == 0
            &&& final(lottery).pot_amount == 0
            &&& final(lottery).winner == 0
            &&& !final(lottery).winner_chosen
        },
        r is Err ==> r == Err::<(), ErrorCode>(ErrorCode::ArithmeticOverflow),
        r is Err ==> *final(lottery) == *old(lottery),
        final(lottery).round_id >= old(lottery).round_id,
        old(lottery).wf() ==> final(lottery).wf(),
{
    let round_id = match lottery.round_id.checked_add(1) {
        Some(n) => n,
        None => return Err(ErrorCode::ArithmeticOverflow),
    };
    lottery.start_time = new_start_time;
    lottery.end_time = new_end_time;
    lottery.ticket_price = new_ticket_price;
    lottery.total_tickets = 0;
    lottery.winner_chosen = false;
    lottery.winner = 0;
    lottery.pot_amount = 0;
    lottery.round_id = round_id;
    Ok(())
}

/// The pot equals the fees of the entries sold: it does when a round
/// starts, and each sale keeps it so.
pub proof fn lemma_pot_tracks_sales(l: TokenLottery, now: i64)
    requires
        l.pot_amount == l.total_tickets * l.ticket_price,
        buy_error(l, now) is None,
    ensures
        after_buy(l).pot_amount == after_buy(l).total_tickets * after_buy(l).ticket_price,
{
    assert((l.total_tickets + 1) * l.ticket_price == l.total_tickets * l.ticket_price + l.ticket_price)
        by (nonlinear_arith);
}

/// A new record, and a record just restarted, hold an empty pot and no sales.
pub proof fn lemma_rounds_start_empty(
    l: TokenLottery,
    authority: Identity,
    bump: u8,
    start_time: i64,
    end_time: i64,
    price: u64,
)
    ensures
        new_config(authority, bump, start_time, end_time, price).pot_amount == 0,
        new_config(authority, bump, start_time, end_time, price).total_tickets == 0,
        after_restart(l, start_time, end_time, price).pot_amount == 0,
        after_restart(l, start_time, end_time, price).total_tickets == 0,
        !after_restart(l, start_time, end_time, price).winner_chosen,
        after_restart(l, start_time, end_time, price).wf(),
{
}

/// Once the oracle's callback has settled a round, every later callback in
/// that round is refused, whoever sends it and whatever it carries.
pub proof fn lemma_resolve_once(
    l: TokenLottery,
    program: Identity,
    caller: Identity,
    randomness: Seq<u8>,
    later_caller: Identity,
)
    requires
        resolve_error(l, program, caller) is None,
    ensures
        resolve_error(after_resolve(l, randomness), program, later_caller) is Some,
{
}

/// The prize is paid at most once per round: after a granted claim the pot
/// is empty and every further claim is refused, whatever entry it presents;
/// one that presents a valid entry is told the prize is claimed.
pub proof fn lemma_prize_paid_once(l: TokenLottery, program: Identity, first: TicketProof, second: TicketProof)
    requires
        claim_error(l, program, first) is None,
    ensures
        after_claim(l).pot_amount == 0,
        claim_error(after_claim(l), program, second) is Some,
        ticket_error(after_claim(l), program, second) is None ==> claim_error(
            after_claim(l),
            program,
            second,
        ) == Some(ErrorCode::PrizeClaimed),
{
}

/// Once the winner is drawn no entry is sold in the round, so after a paid
/// claim the pot stays empty until the next restart.
pub proof fn lemma_no_sales_after_draw(l: TokenLottery, now: i64)
    requires
        l.winner_chosen,
    ensures
        buy_error(l, now) is Some,
        buy_error(after_claim(l), now) is Some,
{
}

/// While the pot is not empty, the holder of the drawn entry, verified in
/// the round's collection, is paid.
pub proof fn lemma_winner_can_claim(l: TokenLottery, program: Identity, t: TicketProof)
    requires
        l.winner_chosen,
        l.pot_amount > 0,
        t.collection matches Some(c) && c.verified && is_round_collection(l, program, c.key),
        strip_nul(t.name@) == ticket_name_of(l.winner),
        t.amount > 0,
    ensures
        claim_error(l, program, t) is None,
{
}

/// After a restart nothing can be claimed until a new winner is drawn.
pub proof fn lemma_no_claim_after_restart(
    l: TokenLottery,
    start_time: i64,
    end_time: i64,
    price: u64,
    program: Identity,
    t: TicketProof,
)
    ensures
        claim_error(after_restart(l, start_time, end_time, price), program, t) == Some(
            ErrorCode::WinnerNotChosen,
        ),
{
}

} // verus!
