//! A raffle settled on chain: entries are bought inside a time window, a
//! winner is drawn from oracle randomness, and the pot is paid once to the
//! holder of the winning entry.

pub mod address;
pub mod identity;
pub mod naming;
pub mod raffle;
pub mod randomness;
pub mod state;

pub use identity::Identity;
pub use raffle::{
    buy_ticket, callback_choose_winner, claim_winnings, commit_winner, initialize_config,
    initialize_lottery, restart_lottery, CollectionRef, Payout, RandomnessRequest, TicketIssue,
    TicketProof,
};
pub use state::{
    BoughtTicket, ErrorCode, InitializedConfig, InitializedLottery, SelectWinner, TokenLottery,
    WinnerCommited, WinningsClaimed,
};
