//! Taking a position in a market.

use crate::address::Address;
use crate::clock::unix_timestamp;
use crate::error::{BettingError, InstructionError};
use crate::state::{Bet, TokenAccount, Transfer, UserBet};
use vstd::prelude::*;

verus! {

/// The bump seeds of the accounts that taking a position creates.
#[derive(Clone, Copy, Debug, PartialEq, Eq)]
pub struct PlaceBetBumps {
    pub user_bet: u8,
}

/// What taking a position works on: the caller, the market, the place
/// where the caller's position is recorded, and the accounts that the stake
/// moves between.
#[derive(Clone, Debug, PartialEq, Eq)]
pub struct PlaceBet {
    /// The caller.
    pub bettor: Address,
    /// The address of the market.
    pub bet_key: Address,
    /// The market.
    pub bet: Bet,
    /// The position recorded for the caller in the market, if there is one.
    pub user_bet: Option<UserBet>,
    /// The account of the caller that the stake is taken from.
    pub bettor_token_account: TokenAccount,
    /// The custody account presented for the stake.
    pub vault_token_account: TokenAccount,
    pub bumps: PlaceBetBumps,
}

impl PlaceBet {
    /// Why the stake is refused at the time `now`, if it is. The conditions
    /// are tried in this order, and the first that fails decides.
    pub open spec fn rejection(&self, now: i64) -> Option<BettingError> {
        if self.bet.resolved {
            Some(BettingError::BetAlreadyResolved)
        } else if now >= self.bet.end_time {
            Some(BettingError::BetEndTimeExceeded)
        } else if self.vault_token_account.key != self.bet.vault {
            Some(BettingError::InvalidVault)
        } else if self.user_bet is Some {
            Some(BettingError::DuplicatePosition)
        } else if self.bettor_token_account.amount < self.bet.bet_amount {
            Some(BettingError::InsufficientFunds)
        } else {
            None
        }
    }

    /// Whether nothing but the time can refuse the stake: the market is not
    /// resolved, the custody account presented is its own, the caller holds
    /// no position in it, and the caller's funds cover the stake.
    pub open spec fn awaits_only_the_time(&self) -> bool {
        &&& !self.bet.resolved
        &&& self.vault_token_account.key == self.bet.vault
        &&& self.user_bet is None
        &&& self.bettor_token_account.amount >= self.bet.bet_amount
    }

    /// Whether a stake on `direction` can be recorded at whatever time it is
    /// accepted: either it is refused at every time, or the market has room
    /// for it.
    pub open spec fn spec_has_room(&self, direction: bool) -> bool {
        self.awaits_only_the_time() ==> self.bet.has_room(direction)
    }

    /// Decides whether a stake on `direction` can be recorded at whatever
    /// time it is accepted.
    #[verifier::when_used_as_spec(spec_has_room)]
    pub fn has_room(&self, direction: bool) -> (ok: bool)
        ensures
            ok == self.spec_has_room(direction),
    {
        if !self.bet.resolved && self.vault_token_account.key == self.bet.vault
            && self.user_bet.is_none() && self.bettor_token_account.amount
            >= self.bet.bet_amount {
            self.bet.has_room(direction)
        } else {
            true
        }
    }

    /// The position that an accepted stake on `direction` records.
    pub open spec fn position(&self, direction: bool) -> UserBet {
        UserBet {
            user: self.bettor,
            bet: self.bet_key,
            amount: self.bet.bet_amount,
            direction,
            claimed: false,
            bump: self.bumps.user_bet,
        }
    }

    /// The payment that an accepted stake asks of the custody service.
    pub open spec fn transfer(&self) -> Transfer {
        Transfer {
            from: self.bettor_token_account.key,
            to: self.vault_token_account.key,
            authority: self.bettor,
            amount: self.bet.bet_amount,
        }
    }

    /// The records after an accepted stake on `direction`: the market counts
    /// one more stake on that side, and the position is recorded.
    pub open spec fn placed(&self, direction: bool) -> PlaceBet {
        PlaceBet {
            bet: self.bet.with_stake(direction),
            user_bet: Some(self.position(direction)),
            ..*self
        }
    }

    /// What [`place_bet_at`] makes of a stake on `direction` at the time
    /// `now`, from these records: it is accepted, with the payment to make
    /// as the result and the records `after` as [`PlaceBet::placed`] gives
    /// them, or refused, with the reason that [`PlaceBet::rejection`] gives
    /// and the records unchanged.
    pub open spec fn carried_out(
        &self,
        direction: bool,
        now: i64,
        after: PlaceBet,
        result: Result<Transfer, BettingError>,
    ) -> bool {
        match result {
            Ok(transfer) => {
                &&& self.rejection(now) is None
                &&& transfer == self.transfer()
                &&& after == self.placed(direction)
            },
            Err(e) => {
                &&& self.rejection(now) == Some(e)
                &&& after == *self
            },
        }
    }

    /// What [`place_bet_at`] makes of the stake at some time or other.
    pub open spec fn carried_out_at_some_time(
        &self,
        direction: bool,
        after: PlaceBet,
        result: Result<Transfer, BettingError>,
    ) -> bool {
        exists|now: i64| self.carried_out(direction, now, after, result)
    }
}

/// Stakes the market's fixed amount for the caller on one side (`true` is
/// yes), at the time `now`.
///
/// The stake is accepted when the market is not resolved, its betting
/// window is still open, the custody account presented is the market's own,
/// the caller holds no position in the market yet, and the caller's funds
/// cover the stake. The market then counts one more stake on the side
/// chosen, the caller's position is recorded with the market's stake as its
/// amount, and the result is the payment to make: the stake, from the
/// caller's account to the custody account.
///
/// Otherwise the stake is refused with the reason that
/// [`PlaceBet::rejection`] gives, and nothing changes. In particular a
/// resolved market refuses every stake with
/// [`BettingError::BetAlreadyResolved`], and an unresolved one whose window
/// has closed refuses every stake with
/// [`BettingError::BetEndTimeExceeded`].
///
/// A stake that is accepted has to fit: the market must have room for it.
/// Of a stake that is refused nothing is asked.
pub fn place_bet_at(ctx: &mut PlaceBet, bet_direction: bool, now: i64) -> (result: Result<
    Transfer,
    BettingError,
>)
    requires
        old(ctx).rejection(now) is None ==> old(ctx).bet.has_room(bet_direction),
    ensures
        match result {
            Ok(transfer) => {
                &&& old(ctx).rejection(now) is None
                &&& transfer == old(ctx).transfer()
                &&& *final(ctx) == old(ctx).placed(bet_direction)
            },
            Err(e) => {
                &&& old(ctx).rejection(now) == Some(e)
                &&& *final(ctx) == *old(ctx)
            },
        },
        old(ctx).bet.resolved ==> result == Err::<Transfer, BettingError>(
            BettingError::BetAlreadyResolved,
        ),
        !old(ctx).bet.resolved && now >= old(ctx).bet.end_time ==> result == Err::<
            Transfer,
            BettingError,
        >(BettingError::BetEndTimeExceeded),
{
    if ctx.bet.resolved {
        return Err(BettingError::BetAlreadyResolved);
    }
    if now >= ctx.bet.end_time {
        return Err(BettingError::BetEndTimeExceeded);
    }
    if ctx.vault_token_account.key != ctx.bet.vault {
        return Err(BettingError::InvalidVault);
    }
    if ctx.user_bet.is_some() {
        return Err(BettingError::DuplicatePosition);
    }
    if ctx.bettor_token_account.amount < ctx.bet.bet_amount {
        return Err(BettingError::InsufficientFunds);
    }
    let transfer = Transfer {
        from: ctx.bettor_token_account.key,
        to: ctx.vault_token_account.key,
        authority: ctx.bettor,
        amount: ctx.bet.bet_amount,
    };
    if bet_direction {
        ctx.bet.yes_bettors += 1;
        ctx.bet.total_yes_amount += ctx.bet.bet_amount;
    } else {
        ctx.bet.no_bettors += 1;
        ctx.bet.total_no_amount += ctx.bet.bet_amount;
    }
    ctx.user_bet = Some(
        UserBet {
            user: ctx.bettor,
            bet: ctx.bet_key,
            amount: ctx.bet.bet_amount,
            direction: bet_direction,
            claimed: false,
            bump: ctx.bumps.user_bet,
        },
    );
    Ok(transfer)
}

/// Stakes the market's fixed amount for the caller on one side (`true` is
/// yes), at the time that the runtime tells.
///
/// A resolved market refuses the stake with
/// [`BettingError::BetAlreadyResolved`], whatever the time. Otherwise the
/// runtime is asked for the time. Where it gives an error instead, the call
/// fails with that error and nothing changes. Where it gives the time, the
/// stake comes to what [`place_bet_at`] makes of it at that time.
pub fn place_bet(ctx: &mut PlaceBet, bet_direction: bool) -> (result: Result<
    Transfer,
    InstructionError,
>)
    requires
        old(ctx).has_room(bet_direction),
    ensures
        old(ctx).bet.resolved ==> result == Err::<Transfer, InstructionError>(
            InstructionError::Refused(BettingError::BetAlreadyResolved),
        ),
        result matches Ok(transfer) ==> old(ctx).carried_out_at_some_time(
            bet_direction,
            *final(ctx),
            Ok::<Transfer, BettingError>(transfer),
        ),
        result matches Err(InstructionError::Refused(e)) ==> old(ctx).carried_out_at_some_time(
            bet_direction,
            *final(ctx),
            Err::<Transfer, BettingError>(e),
        ),
        result matches Err(InstructionError::Runtime(_)) ==> *final(ctx) == *old(ctx),
{
    if ctx.bet.resolved {
        assert(ctx.carried_out(
            bet_direction,
            0i64,
            *ctx,
            Err::<Transfer, BettingError>(BettingError::BetAlreadyResolved),
        ));
        assert(ctx.carried_out_at_some_time(
            bet_direction,
            *ctx,
            Err::<Transfer, BettingError>(BettingError::BetAlreadyResolved),
        ));
        return Err(InstructionError::Refused(BettingError::BetAlreadyResolved));
    }
    match unix_timestamp() {
        Ok(now) => {
            let decided: Result<Transfer, BettingError> = place_bet_at(ctx, bet_direction, now);
            assert(old(ctx).carried_out(bet_direction, now, *ctx, decided));
            assert(old(ctx).carried_out_at_some_time(bet_direction, *ctx, decided));
            match decided {
                Ok(transfer) => Ok(transfer),
                Err(e) => Err(InstructionError::Refused(e)),
            }
        },
        Err(e) => Err(InstructionError::Runtime(e)),
    }
}

} // verus!
