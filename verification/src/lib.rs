//! Verified core of a pooled, fixed-stake, two-outcome betting market.
//!
//! Participants stake a fixed amount on one of two outcomes. The stakes are
//! held in custody until the creator of the market declares the outcome;
//! then every position on the winning side may claim its share of the whole
//! pool, once.
//!
//! The four instructions ([`create_bet`], [`place_bet`], [`resolve_bet`],
//! [`claim_winnings`]) work on plain values: the records that the caller has
//! looked up. They decide whether the instruction is accepted, change the
//! records, and say which payment the custody service is to make. Keeping
//! the records and moving the funds is left to the caller.
//!
//! Three of the instructions depend on the time, and ask the runtime for
//! it. Each has a twin that is told the time instead ([`create_bet_at`],
//! [`place_bet_at`], [`resolve_bet_at`]) and does the rest; what an
//! instruction does at a given time is stated there. Where the runtime
//! gives an error in place of the time, the error is handed on
//! ([`InstructionError`]).
//!
//! What holds of a market as a whole, over its whole life, is proved in
//! [`ledger`].

pub mod address;
pub mod claim;
mod clock;
pub mod create;
pub mod error;
pub mod ledger;
pub mod payout;
pub mod place;
pub mod resolve;
pub mod state;

pub use address::Address;
pub use claim::{claim_winnings, ClaimWinnings};
pub use create::{create_bet, create_bet_at, CreateBet, CreateBetBumps, MAX_TITLE_LEN};
pub use error::{BettingError, InstructionError};
pub use place::{place_bet, place_bet_at, PlaceBet, PlaceBetBumps};
pub use resolve::{resolve_bet, resolve_bet_at, ResolveBet};
pub use state::{Bet, TokenAccount, Transfer, UserBet};
