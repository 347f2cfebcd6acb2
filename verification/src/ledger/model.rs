//! The model: the records of one market, and how instructions change them.

use crate::address::Address;
use crate::claim::ClaimWinnings;
use crate::ledger::sums::{backers, paid, staked};
use crate::place::{PlaceBet, PlaceBetBumps};
use crate::resolve::ResolveBet;
use crate::state::{Bet, TokenAccount, UserBet};
use vstd::prelude::*;

verus! {

/// Everything recorded for one market: the market, the positions taken in
/// it in the order in which they were taken, and the balance of its custody
/// account.
pub struct Ledger {
    /// The address of the market.
    pub key: Address,
    /// The market.
    pub bet: Bet,
    /// The positions taken in the market, oldest first.
    pub positions: Seq<UserBet>,
    /// What the custody account of the market holds.
    pub custody: int,
}

/// An instruction addressed to a market, with all that its caller presents.
pub enum Instruction {
    /// The caller stakes on one side at the time `now`.
    PlaceBet {
        bettor: Address,
        bettor_token_account: TokenAccount,
        vault_token_account: TokenAccount,
        bumps: PlaceBetBumps,
        direction: bool,
        now: i64,
    },
    /// The caller declares the outcome at the time `now`.
    ResolveBet { creator: Address, outcome: bool, now: i64 },
    /// The caller claims the winnings of their position.
    ClaimWinnings {
        user: Address,
        vault_authority: Address,
        vault_token_account: TokenAccount,
        user_token_account: TokenAccount,
    },
}

impl Ledger {
    /// The ledger of a market that has just been opened: no positions, and
    /// an empty custody account.
    pub open spec fn opened(key: Address, bet: Bet) -> Ledger {
        Ledger { key, bet, positions: Seq::empty(), custody: 0 }
    }

    /// Whether `owner` holds a position in the market.
    pub open spec fn holds(&self, owner: Address) -> bool {
        exists|i: int| 0 <= i < self.positions.len() && #[trigger] self.positions[i].user == owner
    }

    /// Where the position of `owner` stands among the positions, if `owner`
    /// holds one.
    pub open spec fn slot(&self, owner: Address) -> int {
        choose|i: int| 0 <= i < self.positions.len() && #[trigger] self.positions[i].user == owner
    }

    /// The position recorded for `owner`, if there is one.
    pub open spec fn position_of(&self, owner: Address) -> Option<UserBet> {
        if self.holds(owner) {
            Some(self.positions[self.slot(owner)])
        } else {
            None
        }
    }

    /// All that has been paid out to the positions that have claimed.
    pub open spec fn paid_out(&self) -> int {
        paid(self.positions, self.bet.total_pool(), self.bet.winning_pool())
    }

    /// The records agree with one another, as those of a market do that
    /// was opened empty and has been changed by instructions alone.
    ///
    /// The stake is not zero, and every position was taken in this market
    /// and carries its stake. Nobody holds two positions. The market counts
    /// its positions and sums their stakes, side by side. Only positions on
    /// the winning side of a resolved market have claimed. The custody
    /// account holds all the stakes but for what has been paid out.
    pub open spec fn wf(&self) -> bool {
        &&& self.bet.bet_amount > 0
        &&& self.bet.total_pool() <= u64::MAX
        &&& forall|i: int|
            0 <= i < self.positions.len() ==> {
                &&& (#[trigger] self.positions[i]).bet == self.key
                &&& self.positions[i].amount == self.bet.bet_amount
                &&& self.positions[i].claimed ==> self.bet.resolved && self.positions[i].direction
                    == self.bet.outcome
            }
        &&& forall|i: int, j: int|
            0 <= i < j < self.positions.len() ==> (#[trigger] self.positions[i]).user != (
            #[trigger] self.positions[j]).user
        &&& self.bet.yes_bettors == backers(self.positions, true)
        &&& self.bet.no_bettors == backers(self.positions, false)
        &&& self.bet.total_yes_amount == staked(self.positions, true)
        &&& self.bet.total_no_amount == staked(self.positions, false)
        &&& self.custody == self.bet.total_pool() - self.paid_out()
    }

    /// What taking a position works on, for a caller who presents the given
    /// accounts.
    pub open spec fn place_bet_context(
        &self,
        bettor: Address,
        bettor_token_account: TokenAccount,
        vault_token_account: TokenAccount,
        bumps: PlaceBetBumps,
    ) -> PlaceBet {
        PlaceBet {
            bettor,
            bet_key: self.key,
            bet: self.bet,
            user_bet: self.position_of(bettor),
            bettor_token_account,
            vault_token_account,
            bumps,
        }
    }

    /// What declaring the outcome works on, for the given caller.
    pub open spec fn resolve_bet_context(&self, creator: Address) -> ResolveBet {
        ResolveBet { creator, bet: self.bet }
    }

    /// What a claim works on, for a caller who holds a position and
    /// presents the given accounts.
    pub open spec fn claim_winnings_context(
        &self,
        user: Address,
        vault_authority: Address,
        vault_token_account: TokenAccount,
        user_token_account: TokenAccount,
    ) -> ClaimWinnings
        recommends
            self.holds(user),
    {
        ClaimWinnings {
            user,
            bet_key: self.key,
            bet: self.bet,
            user_bet: self.positions[self.slot(user)],
            vault_authority,
            vault_token_account,
            user_token_account,
        }
    }

    /// Whether the instruction is carried out. It is not when it is
    /// refused, nor when it cannot be issued at all: a claim for someone
    /// who holds no position, or a stake from an account that, together
    /// with the custody account, would hold more than there can be of one
    /// token.
    pub open spec fn accepts(&self, instruction: Instruction) -> bool {
        match instruction {
            Instruction::PlaceBet {
                bettor,
                bettor_token_account,
                vault_token_account,
                bumps,
                direction,
                now,
            } => {
                let ctx = self.place_bet_context(
                    bettor,
                    bettor_token_account,
                    vault_token_account,
                    bumps,
                );
                bettor_token_account.amount + self.custody <= u64::MAX && ctx.rejection(now)
                    is None
            },
            Instruction::ResolveBet { creator, outcome, now } => {
                self.resolve_bet_context(creator).rejection(now) is None
            },
            Instruction::ClaimWinnings {
                user,
                vault_authority,
                vault_token_account,
                user_token_account,
            } => {
                let ctx = self.claim_winnings_context(
                    user,
                    vault_authority,
                    vault_token_account,
                    user_token_account,
                );
                self.holds(user) && ctx.rejection() is None
            },
        }
    }

    /// The ledger after the instruction. An instruction that is not carried
    /// out leaves the ledger as it is. One that is changes the records as the
    /// instruction says, and moves the payment it asks for into or out of
    /// the custody account.
    pub open spec fn step(&self, instruction: Instruction) -> Ledger {
        if !self.accepts(instruction) {
            *self
        } else {
            match instruction {
                Instruction::PlaceBet {
                    bettor,
                    bettor_token_account,
                    vault_token_account,
                    bumps,
                    direction,
                    now,
                } => {
                    let ctx = self.place_bet_context(
                        bettor,
                        bettor_token_account,
                        vault_token_account,
                        bumps,
                    );
                    Ledger {
                        bet: ctx.placed(direction).bet,
                        positions: self.positions.push(ctx.position(direction)),
                        custody: self.custody + ctx.transfer().amount,
                        ..*self
                    }
                },
                Instruction::ResolveBet { creator, outcome, now } => {
                    Ledger { bet: self.resolve_bet_context(creator).resolved(outcome).bet, ..*self }
                },
                Instruction::ClaimWinnings {
                    user,
                    vault_authority,
                    vault_token_account,
                    user_token_account,
                } => {
                    let ctx = self.claim_winnings_context(
                        user,
                        vault_authority,
                        vault_token_account,
                        user_token_account,
                    );
                    Ledger {
                        positions: self.positions.update(self.slot(user), ctx.claimed().user_bet),
                        custody: self.custody - ctx.transfer().amount,
                        ..*self
                    }
                },
            }
        }
    }

    /// The ledger after the instructions, applied in order.
    pub open spec fn run(&self, instructions: Seq<Instruction>) -> Ledger
        decreases instructions.len(),
    {
        if instructions.len() == 0 {
            *self
        } else {
            self.run(instructions.drop_last()).step(instructions.last())
        }
    }
}

} // verus!
