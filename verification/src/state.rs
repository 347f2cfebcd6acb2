//! The records of a market: the market itself, the positions taken in it,
//! and the token accounts that funds move between.

use crate::address::Address;
use vstd::prelude::*;

verus! {

/// A market: one wager on a yes-or-no question, with a fixed stake.
///
/// Every participant stakes exactly `bet_amount` on one side. The two
/// `total_*_amount` fields and the two `*_bettors` counters are running
/// aggregates over the positions taken so far. Once `resolved` is set,
/// `outcome` tells which side won; before that `outcome` means nothing.
#[derive(Clone, Debug, PartialEq, Eq)]
pub struct Bet {
    pub creator: Address,
    pub title: String,
    pub bet_amount: u64,
    pub total_yes_amount: u64,
    pub total_no_amount: u64,
    pub yes_bettors: u64,
    pub no_bettors: u64,
    pub end_time: i64,
    pub resolved: bool,
    pub outcome: bool,
    pub token_mint: Address,
    pub vault: Address,
    pub bump: u8,
    pub bump_vault_authority: u8,
    pub bump_vault_ta: u8,
}

impl Bet {
    /// Everything staked in the market, on both sides.
    pub open spec fn total_pool(&self) -> int {
        self.total_yes_amount + self.total_no_amount
    }

    /// What has been staked on one side (`true` is yes).
    pub open spec fn side_total(&self, direction: bool) -> int {
        if direction {
            self.total_yes_amount as int
        } else {
            self.total_no_amount as int
        }
    }

    /// How many positions back one side (`true` is yes).
    pub open spec fn side_bettors(&self, direction: bool) -> int {
        if direction {
            self.yes_bettors as int
        } else {
            self.no_bettors as int
        }
    }

    /// Whether one more stake on `direction` can be recorded: the pool with
    /// that stake is still an amount that one custody account can hold, and
    /// the counter of that side is not at its limit.
    pub open spec fn spec_has_room(&self, direction: bool) -> bool {
        &&& self.total_pool() + self.bet_amount <= u64::MAX
        &&& self.side_bettors(direction) < u64::MAX
    }

    /// Decides whether one more stake on `direction` can be recorded.
    #[verifier::when_used_as_spec(spec_has_room)]
    pub fn has_room(&self, direction: bool) -> (ok: bool)
        ensures
            ok == self.spec_has_room(direction),
    {
        let bettors: u64 = if direction {
            self.yes_bettors
        } else {
            self.no_bettors
        };
        bettors < u64::MAX && self.total_yes_amount <= u64::MAX - self.total_no_amount
            && self.total_yes_amount + self.total_no_amount <= u64::MAX - self.bet_amount
    }

    /// The market with one more stake recorded on one side.
    pub open spec fn with_stake(&self, direction: bool) -> Bet {
        if direction {
            Bet {
                yes_bettors: (self.yes_bettors + 1) as u64,
                total_yes_amount: (self.total_yes_amount + self.bet_amount) as u64,
                ..*self
            }
        } else {
            Bet {
                no_bettors: (self.no_bettors + 1) as u64,
                total_no_amount: (self.total_no_amount + self.bet_amount) as u64,
                ..*self
            }
        }
    }

    /// The market with its outcome declared.
    pub open spec fn with_outcome(&self, outcome: bool) -> Bet {
        Bet { resolved: true, outcome, ..*self }
    }

    /// What has been staked on the side that `outcome` names.
    pub open spec fn winning_pool(&self) -> int {
        self.side_total(self.outcome)
    }

    /// How many positions back the side that `outcome` names.
    pub open spec fn winning_bettors(&self) -> int {
        self.side_bettors(self.outcome)
    }
}

/// A position: one participant's stake on one side of one market.
#[derive(Clone, Copy, Debug, PartialEq, Eq)]
pub struct UserBet {
    /// The participant who owns the position.
    pub user: Address,
    /// The market the position was taken in.
    pub bet: Address,
    /// The stake, copied from the market when the position was taken.
    pub amount: u64,
    /// The side backed (`true` is yes).
    pub direction: bool,
    /// Whether the winnings have been paid.
    pub claimed: bool,
    pub bump: u8,
}

/// A token account as an instruction sees it: where it lives and what it
/// holds.
#[derive(Clone, Copy, Debug, PartialEq, Eq)]
pub struct TokenAccount {
    pub key: Address,
    pub amount: u64,
}

/// A movement of funds that the custody service is to carry out on behalf
/// of an instruction that succeeded.
#[derive(Clone, Copy, Debug, PartialEq, Eq)]
pub struct Transfer {
    pub from: Address,
    pub to: Address,
    pub authority: Address,
    pub amount: u64,
}

} // verus!
