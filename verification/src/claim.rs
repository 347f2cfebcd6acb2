//! Claiming the winnings of a position.

use crate::address::Address;
use crate::error::BettingError;
use crate::payout::{checked_payout, lemma_payout_within_pool, payout};
use crate::state::{Bet, TokenAccount, Transfer, UserBet};
use vstd::prelude::*;

verus! {

/// What a claim works on: the caller, the market, the caller's position in
/// it, and the accounts that the winnings move between.
#[derive(Clone, Debug, PartialEq, Eq)]
pub struct ClaimWinnings {
    /// The caller.
    pub user: Address,
    /// The address of the market.
    pub bet_key: Address,
    /// The market.
    pub bet: Bet,
    /// The position recorded for the caller in the market.
    pub user_bet: UserBet,
    /// The authority under which the custody account pays out.
    pub vault_authority: Address,
    /// The custody account presented for the claim.
    pub vault_token_account: TokenAccount,
    /// The account of the caller that receives the winnings.
    pub user_token_account: TokenAccount,
}

impl ClaimWinnings {
    /// The records fit together: the position is the caller's own and was
    /// taken in this market; and where the claim is accepted, so that a
    /// share is worked out, the pool is an amount that one custody account
    /// can hold and the stake is part of the winning pool.
    pub open spec fn wf(&self) -> bool {
        &&& self.user_bet.user == self.user
        &&& self.user_bet.bet == self.bet_key
        &&& self.rejection() is None ==> {
            &&& self.bet.total_pool() <= u64::MAX
            &&& self.user_bet.amount <= self.bet.winning_pool()
        }
    }

    /// Why the claim is refused, if it is. The conditions are tried in this
    /// order, and the first that fails decides.
    pub open spec fn rejection(&self) -> Option<BettingError> {
        if !self.bet.resolved {
            Some(BettingError::BetNotResolved)
        } else if self.user_bet.claimed {
            Some(BettingError::AlreadyClaimed)
        } else if self.user_bet.direction != self.bet.outcome {
            Some(BettingError::NotWinner)
        } else if self.vault_token_account.key != self.bet.vault {
            Some(BettingError::InvalidVault)
        } else if self.bet.winning_bettors() == 0 {
            Some(BettingError::NoWinners)
        } else if self.bet.winning_pool() == 0 {
            Some(BettingError::NoWinningPool)
        } else {
            None
        }
    }

    /// What the position is owed: its share of the whole pool.
    pub open spec fn winning_amount(&self) -> int {
        payout(self.bet.total_pool(), self.user_bet.amount as int, self.bet.winning_pool())
    }

    /// The payment that an accepted claim asks of the custody service.
    pub open spec fn transfer(&self) -> Transfer {
        Transfer {
            from: self.vault_token_account.key,
            to: self.user_token_account.key,
            authority: self.vault_authority,
            amount: self.winning_amount() as u64,
        }
    }

    /// The records after an accepted claim: the position is marked as
    /// claimed, and nothing else has changed.
    pub open spec fn claimed(&self) -> ClaimWinnings {
        ClaimWinnings { user_bet: UserBet { claimed: true, ..self.user_bet }, ..*self }
    }

    /// Decides whether the records fit together.
    pub fn is_wf(&self) -> (ok: bool)
        ensures
            ok == self.wf(),
    {
        let (winning_pool, winning_bettors): (u64, u64) = if self.bet.outcome {
            (self.bet.total_yes_amount, self.bet.yes_bettors)
        } else {
            (self.bet.total_no_amount, self.bet.no_bettors)
        };
        let accepted = self.bet.resolved && !self.user_bet.claimed && self.user_bet.direction
            == self.bet.outcome && self.vault_token_account.key == self.bet.vault
            && winning_bettors != 0 && winning_pool != 0;
        self.user_bet.user == self.user && self.user_bet.bet == self.bet_key && (!accepted || (
        self.bet.total_yes_amount <= u64::MAX - self.bet.total_no_amount && self.user_bet.amount
            <= winning_pool))
    }
}

/// Pays a winning position its share of the pool.
///
/// The claim is accepted when the market is resolved, the position has not
/// been paid yet and backs the winning side, and the custody account
/// presented is the market's own. The position is then marked as claimed,
/// and the result is the payment to make: the position's share of the whole
/// pool, rounded down, from the custody account to the caller's account.
///
/// Otherwise the claim is refused with the reason that
/// [`ClaimWinnings::rejection`] gives, and nothing changes. In particular a
/// position is paid at most once: a position that is marked as claimed
/// stays so, and claiming it again fails with
/// [`BettingError::AlreadyClaimed`].
pub fn claim_winnings(ctx: &mut ClaimWinnings) -> (result: Result<Transfer, BettingError>)
    requires
        old(ctx).wf(),
    ensures
        match result {
            Ok(transfer) => {
                &&& old(ctx).rejection() is None
                &&& transfer == old(ctx).transfer()
                &&& transfer.amount == old(ctx).winning_amount()
                &&& transfer.amount <= old(ctx).bet.total_pool()
                &&& *final(ctx) == old(ctx).claimed()
            },
            Err(e) => {
                &&& old(ctx).rejection() == Some(e)
                &&& *final(ctx) == *old(ctx)
            },
        },
        result is Ok ==> !old(ctx).user_bet.claimed,
        old(ctx).user_bet.claimed ==> final(ctx).user_bet.claimed,
        final(ctx).wf(),
{
    if !ctx.bet.resolved {
        return Err(BettingError::BetNotResolved);
    }
    if ctx.user_bet.claimed {
        return Err(BettingError::AlreadyClaimed);
    }
    if ctx.user_bet.direction != ctx.bet.outcome {
        return Err(BettingError::NotWinner);
    }
    if ctx.vault_token_account.key != ctx.bet.vault {
        return Err(BettingError::InvalidVault);
    }
    let (winning_pool, winning_bettors): (u64, u64) = if ctx.bet.outcome {
        (ctx.bet.total_yes_amount, ctx.bet.yes_bettors)
    } else {
        (ctx.bet.total_no_amount, ctx.bet.no_bettors)
    };
    if winning_bettors == 0 {
        return Err(BettingError::NoWinners);
    }
    if winning_pool == 0 {
        return Err(BettingError::NoWinningPool);
    }
    let total_pool: u64 = ctx.bet.total_yes_amount + ctx.bet.total_no_amount;
    proof {
        lemma_payout_within_pool(
            total_pool as int,
            ctx.user_bet.amount as int,
            winning_pool as int,
        );
    }
    let winning_amount: u64 = checked_payout(
        total_pool,
        ctx.user_bet.amount,
        winning_pool,
    ).unwrap();
    let transfer = Transfer {
        from: ctx.vault_token_account.key,
        to: ctx.user_token_account.key,
        authority: ctx.vault_authority,
        amount: winning_amount,
    };
    ctx.user_bet.claimed = true;
    Ok(transfer)
}

} // verus!
