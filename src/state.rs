//! The round configuration, the errors operations fail with, and the
//! notifications they emit.
use vstd::prelude::*;

use crate::identity::Identity;

verus! {

/// The one configuration record of a raffle, reused from round to round.
#[derive(Clone, Copy, Debug, PartialEq, Eq)]
pub struct TokenLottery {
    /// Bumped on every restart; part of every per-round address.
    pub round_id: u64,
    /// Index of the winning entry; meaningful once `winner_chosen` is set.
    pub winner: u64,
    /// Set once per round, when the oracle's randomness settles the draw.
    pub winner_chosen: bool,
    pub start_time: i64,
    pub end_time: i64,
    /// Fees collected this round and not yet paid out.
    pub pot_amount: u64,
    /// Entries sold this round; also the index of the next entry.
    pub total_tickets: u64,
    pub ticket_price: u64,
    /// The only key that may ask for the draw.
    pub authority: Identity,
    /// Bump byte of the record's own derived address.
    pub bump: u8,
}

impl TokenLottery {
    /// A chosen winner is always one of the entries sold.
    pub open spec fn wf(self) -> bool {
        self.winner_chosen ==> self.winner < self.total_tickets
    }

    /// Inside the entry window, both ends included.
    pub open spec fn is_open_at(self, now: i64) -> bool {
        self.start_time <= now <= self.end_time
    }
}

#[derive(Clone, Copy, Debug, PartialEq, Eq)]
pub enum ErrorCode {
    LotteryNotOpen,
    NotAuthorized,
    RandomnessAlreadyRevealed,
    LotteryNotCompleted,
    IncorrectRandomnessAccount,
    RandomnessNotResolved,
    WinnerChosen,
    IncorrectTicket,
    WinnerNotChosen,
    NotVerifiedTicket,
    /// The pot of this round has been paid out already.
    PrizeClaimed,
    /// A counter or the pot would pass `u64::MAX`.
    ArithmeticOverflow,
}

#[derive(Clone, Copy, Debug, PartialEq, Eq)]
pub struct InitializedConfig {
    pub start_time: i64,
    pub end_time: i64,
    pub price: u64,
}

#[derive(Clone, Copy, Debug, PartialEq, Eq)]
pub struct InitializedLottery {
    pub collection_mint: Identity,
}

#[derive(Clone, Copy, Debug, PartialEq, Eq)]
pub struct BoughtTicket {
    pub price: u64,
    pub current_total_tickets: u64,
}

#[derive(Clone, Copy, Debug, PartialEq, Eq)]
pub struct SelectWinner {
    pub winner: u64,
    pub winner_chosen: bool,
}

#[derive(Clone, Debug, PartialEq, Eq)]
pub struct WinningsClaimed {
    pub ticket_name: String,
    pub destination_account: Identity,
}

#[derive(Clone, Copy, Debug, PartialEq, Eq)]
pub struct WinnerCommited {
    pub oracle_queue: Identity,
}

} // verus!
