//! Declaring the outcome of a market.

use crate::address::Address;
use crate::clock::unix_timestamp;
use crate::error::{BettingError, InstructionError};
use crate::state::Bet;
use vstd::prelude::*;

verus! {

/// What declaring an outcome works on: the caller and the market.
#[derive(Clone, Debug, PartialEq, Eq)]
pub struct ResolveBet {
    /// The caller.
    pub creator: Address,
    /// The market.
    pub bet: Bet,
}

impl ResolveBet {
    /// Why the declaration is refused at the time `now`, if it is. The
    /// conditions are tried in this order, and the first that fails
    /// decides.
    pub open spec fn rejection(&self, now: i64) -> Option<BettingError> {
        if self.bet.resolved {
            Some(BettingError::BetAlreadyResolved)
        } else if self.creator != self.bet.creator {
            Some(BettingError::NotCreator)
        } else if now < self.bet.end_time {
            Some(BettingError::BetNotEnded)
        } else {
            None
        }
    }

    /// The records after an accepted declaration of `outcome`.
    pub open spec fn resolved(&self, outcome: bool) -> ResolveBet {
        ResolveBet { bet: self.bet.with_outcome(outcome), ..*self }
    }

    /// What [`resolve_bet_at`] makes of a declaration of `outcome` at the
    /// time `now`, from these records: it is accepted, with the records
    /// `after` as [`ResolveBet::resolved`] gives them, or refused, with the
    /// reason that [`ResolveBet::rejection`] gives and the records
    /// unchanged.
    pub open spec fn carried_out(
        &self,
        outcome: bool,
        now: i64,
        after: ResolveBet,
        result: Result<(), BettingError>,
    ) -> bool {
        match result {
            Ok(()) => {
                &&& self.rejection(now) is None
                &&& after == self.resolved(outcome)
            },
            Err(e) => {
                &&& self.rejection(now) == Some(e)
                &&& after == *self
            },
        }
    }

    /// What [`resolve_bet_at`] makes of the declaration at some time or
    /// other.
    pub open spec fn carried_out_at_some_time(
        &self,
        outcome: bool,
        after: ResolveBet,
        result: Result<(), BettingError>,
    ) -> bool {
        exists|now: i64| self.carried_out(outcome, now, after, result)
    }
}

/// Declares the outcome of the market (`true` is yes) at the time `now`.
///
/// The declaration is accepted when the market is not resolved yet, the
/// caller is its creator, and its betting window has closed. The market is
/// then resolved with the given outcome, for good.
///
/// Otherwise the declaration is refused with the reason that
/// [`ResolveBet::rejection`] gives, and nothing changes. In particular a
/// market is resolved at most once: it stays resolved with the outcome it
/// has, and every further declaration, whoever makes it and whenever, fails
/// with [`BettingError::BetAlreadyResolved`].
pub fn resolve_bet_at(ctx: &mut ResolveBet, outcome: bool, now: i64) -> (result: Result<
    (),
    BettingError,
>)
    ensures
        match result {
            Ok(()) => {
                &&& old(ctx).rejection(now) is None
                &&& *final(ctx) == old(ctx).resolved(outcome)
            },
            Err(e) => {
                &&& old(ctx).rejection(now) == Some(e)
                &&& *final(ctx) == *old(ctx)
            },
        },
        result is Ok ==> !old(ctx).bet.resolved,
        old(ctx).bet.resolved ==> final(ctx).bet.resolved && final(ctx).bet.outcome == old(
            ctx,
        ).bet.outcome,
        old(ctx).bet.resolved ==> result == Err::<(), BettingError>(
            BettingError::BetAlreadyResolved,
        ),
{
    if ctx.bet.resolved {
        return Err(BettingError::BetAlreadyResolved);
    }
    if ctx.creator != ctx.bet.creator {
        return Err(BettingError::NotCreator);
    }
    if now < ctx.bet.end_time {
        return Err(BettingError::BetNotEnded);
    }
    ctx.bet.resolved = true;
    ctx.bet.outcome = outcome;
    Ok(())
}

/// Declares the outcome of the market (`true` is yes) at the time that the
/// runtime tells.
///
/// A resolved market refuses every declaration with
/// [`BettingError::BetAlreadyResolved`], and an unresolved one refuses
/// anybody but its creator with [`BettingError::NotCreator`], whatever the
/// time. Otherwise the runtime is asked for the time. Where it gives an
/// error instead, the call fails with that error and nothing changes. Where
/// it gives the time, the declaration comes to what [`resolve_bet_at`]
/// makes of it at that time.
pub fn resolve_bet(ctx: &mut ResolveBet, outcome: bool) -> (result: Result<(), InstructionError>)
    ensures
        old(ctx).bet.resolved ==> result == Err::<(), InstructionError>(
            InstructionError::Refused(BettingError::BetAlreadyResolved),
        ),
        !old(ctx).bet.resolved && old(ctx).creator != old(ctx).bet.creator ==> result == Err::<
            (),
            InstructionError,
        >(InstructionError::Refused(BettingError::NotCreator)),
        result is Ok ==> old(ctx).carried_out_at_some_time(
            outcome,
            *final(ctx),
            Ok::<(), BettingError>(()),
        ),
        result matches Err(InstructionError::Refused(e)) ==> old(ctx).carried_out_at_some_time(
            outcome,
            *final(ctx),
            Err::<(), BettingError>(e),
        ),
        result matches Err(InstructionError::Runtime(_)) ==> *final(ctx) == *old(ctx),
        old(ctx).bet.resolved ==> final(ctx).bet.resolved && final(ctx).bet.outcome == old(
            ctx,
        ).bet.outcome,
{
    if ctx.bet.resolved {
        let refused: Result<(), BettingError> = Err(BettingError::BetAlreadyResolved);
        assert(ctx.carried_out(outcome, 0i64, *ctx, refused));
        assert(ctx.carried_out_at_some_time(outcome, *ctx, refused));
        return Err(InstructionError::Refused(BettingError::BetAlreadyResolved));
    }
    if ctx.creator != ctx.bet.creator {
        let refused: Result<(), BettingError> = Err(BettingError::NotCreator);
        assert(ctx.carried_out(outcome, 0i64, *ctx, refused));
        assert(ctx.carried_out_at_some_time(outcome, *ctx, refused));
        return Err(InstructionError::Refused(BettingError::NotCreator));
    }
    match unix_timestamp() {
        Ok(now) => {
            match resolve_bet_at(ctx, outcome, now) {
                Ok(()) => {
                    let ghost accepted: Result<(), BettingError> = Ok(());
                    assert(old(ctx).carried_out(outcome, now, *ctx, accepted));
                    assert(old(ctx).carried_out_at_some_time(outcome, *ctx, accepted));
                    Ok(())
                },
                Err(e) => {
                    let ghost refused: Result<(), BettingError> = Err(e);
                    assert(old(ctx).carried_out(outcome, now, *ctx, refused));
                    assert(old(ctx).carried_out_at_some_time(outcome, *ctx, refused));
                    Err(InstructionError::Refused(e))
                },
            }
        },
        Err(e) => Err(InstructionError::Runtime(e)),
    }
}

} // verus!
