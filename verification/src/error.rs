//! The ways in which an instruction is refused.

use anchor_lang::prelude::ProgramError;
use vstd::prelude::*;

verus! {

/// Why an instruction was refused. A refused instruction changes nothing.
#[derive(Clone, Copy, Debug, PartialEq, Eq, Structural)]
pub enum BettingError {
    /// The market has already been resolved.
    BetAlreadyResolved,
    /// The custody account presented is not the one registered for the market.
    InvalidVault,
    /// The position backs the side that lost.
    NotWinner,
    /// The position's winnings have already been paid.
    AlreadyClaimed,
    /// The market has not been resolved yet.
    BetNotResolved,
    /// The betting window is still open.
    BetNotEnded,
    /// The betting window has closed.
    BetEndTimeExceeded,
    /// Nobody backed the winning side.
    NoWinners,
    /// Nothing was staked on the winning side.
    NoWinningPool,
    /// The caller is not the creator of the market.
    NotCreator,
    /// The caller's funds do not cover the stake.
    InsufficientFunds,
    /// The caller already holds a position in the market.
    DuplicatePosition,
    /// A market is already recorded under the title.
    CreateConflict,
}

/// Why an instruction that asks the runtime for the time failed. A failed
/// instruction changes nothing.
#[derive(Debug, PartialEq, Eq)]
pub enum InstructionError {
    /// The instruction was refused.
    Refused(BettingError),
    /// The runtime did not tell the time, and gave this error instead.
    Runtime(ProgramError),
}

} // verus!
