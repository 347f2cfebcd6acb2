//! Opening a market.

use crate::address::Address;
use crate::clock::unix_timestamp;
use crate::error::{BettingError, InstructionError};
use crate::state::{Bet, TokenAccount};
use vstd::prelude::*;
use vstd::utf8::encode_utf8;

verus! {

/// The longest title a market can have, in bytes of UTF-8: what the record
/// of a market has room for.
pub const MAX_TITLE_LEN: usize = 100;

/// The bump seeds of the accounts that opening a market creates.
#[derive(Clone, Copy, Debug, PartialEq, Eq)]
pub struct CreateBetBumps {
    pub bet: u8,
    pub vault_authority: u8,
    pub vault_token_account: u8,
}

/// What opening a market works on: the caller, the place where the market
/// is recorded, and the custody account set up for it.
#[derive(Clone, Debug, PartialEq, Eq)]
pub struct CreateBet {
    /// The caller, who becomes the creator of the market.
    pub signer: Address,
    /// The market recorded under the title, if there is one.
    pub bet: Option<Bet>,
    /// The custody account that will hold the stakes.
    pub vault_token_account: TokenAccount,
    /// The token that stakes are paid in.
    pub token_mint: Address,
    pub bumps: CreateBetBumps,
}

impl CreateBet {
    /// The terms on which a market may be opened: the title fits in the
    /// record, the stake is not zero, and the custody account is empty.
    ///
    /// The title is measured in bytes of UTF-8. Of a title of ASCII
    /// characters that is the number of its characters
    /// (`vstd::utf8::is_ascii_chars_encode_utf8`).
    pub open spec fn sound_terms(&self, title: Seq<char>, bet_amount: u64) -> bool {
        &&& encode_utf8(title).len() <= MAX_TITLE_LEN
        &&& bet_amount > 0
        &&& self.vault_token_account.amount == 0
    }

    /// Why opening a market whose betting window closes at `end_time` is
    /// refused at the time `now`, if it is. The conditions are tried in
    /// this order, and the first that fails decides.
    pub open spec fn rejection(&self, end_time: i64, now: i64) -> Option<BettingError> {
        if self.bet is Some {
            Some(BettingError::CreateConflict)
        } else if now >= end_time {
            Some(BettingError::BetEndTimeExceeded)
        } else {
            None
        }
    }

    /// The market as it is first recorded: nothing staked, nobody counted,
    /// not resolved.
    pub open spec fn opened(&self, title: String, bet_amount: u64, end_time: i64) -> Bet {
        Bet {
            creator: self.signer,
            title,
            bet_amount,
            total_yes_amount: 0,
            total_no_amount: 0,
            yes_bettors: 0,
            no_bettors: 0,
            end_time,
            resolved: false,
            outcome: false,
            token_mint: self.token_mint,
            vault: self.vault_token_account.key,
            bump: self.bumps.bet,
            bump_vault_authority: self.bumps.vault_authority,
            bump_vault_ta: self.bumps.vault_token_account,
        }
    }

    /// The records after a market has been opened: the market is recorded,
    /// and nothing else has changed.
    pub open spec fn created(&self, title: String, bet_amount: u64, end_time: i64) -> CreateBet {
        CreateBet { bet: Some(self.opened(title, bet_amount, end_time)), ..*self }
    }

    /// What [`create_bet_at`] makes of opening a market at the time `now`,
    /// from these records: the market is opened, with the records `after`
    /// as [`CreateBet::created`] gives them, or the call is refused, with
    /// the reason that [`CreateBet::rejection`] gives and the records
    /// unchanged.
    pub open spec fn carried_out(
        &self,
        title: String,
        bet_amount: u64,
        end_time: i64,
        now: i64,
        after: CreateBet,
        result: Result<(), BettingError>,
    ) -> bool {
        match result {
            Ok(()) => {
                &&& self.rejection(end_time, now) is None
                &&& after == self.created(title, bet_amount, end_time)
            },
            Err(e) => {
                &&& self.rejection(end_time, now) == Some(e)
                &&& after == *self
            },
        }
    }

    /// What [`create_bet_at`] makes of opening a market at some time or
    /// other.
    pub open spec fn carried_out_at_some_time(
        &self,
        title: String,
        bet_amount: u64,
        end_time: i64,
        after: CreateBet,
        result: Result<(), BettingError>,
    ) -> bool {
        exists|now: i64| self.carried_out(title, bet_amount, end_time, now, after, result)
    }

    /// Decides whether the terms are sound.
    pub fn has_sound_terms(&self, title: &str, bet_amount: u64) -> (ok: bool)
        ensures
            ok == self.sound_terms(title@, bet_amount),
    {
        title.as_bytes().len() <= MAX_TITLE_LEN && bet_amount > 0
            && self.vault_token_account.amount == 0
    }
}

/// Opens a market under `title` at the time `now`, with a stake of
/// `bet_amount` for every participant and a betting window that closes at
/// `end_time`.
///
/// The market is opened when none is recorded under the title yet and
/// `end_time` lies in the future. It is then recorded with the caller as
/// its creator, the given terms, the presented custody account as its
/// vault, nothing staked and no outcome.
///
/// Otherwise the call is refused with the reason that
/// [`CreateBet::rejection`] gives, and nothing changes: with
/// [`BettingError::CreateConflict`] where a market is recorded under the
/// title, else with [`BettingError::BetEndTimeExceeded`], because the
/// betting window would never be open.
pub fn create_bet_at(
    ctx: &mut CreateBet,
    title: String,
    bet_amount: u64,
    end_time: i64,
    now: i64,
) -> (result: Result<(), BettingError>)
    requires
        old(ctx).sound_terms(title@, bet_amount),
    ensures
        match result {
            Ok(()) => {
                &&& old(ctx).rejection(end_time, now) is None
                &&& *final(ctx) == old(ctx).created(title, bet_amount, end_time)
            },
            Err(e) => {
                &&& old(ctx).rejection(end_time, now) == Some(e)
                &&& *final(ctx) == *old(ctx)
            },
        },
        result is Ok ==> now < end_time,
{
    if ctx.bet.is_some() {
        return Err(BettingError::CreateConflict);
    }
    if now >= end_time {
        return Err(BettingError::BetEndTimeExceeded);
    }
    ctx.bet = Some(
        Bet {
            creator: ctx.signer,
            title,
            bet_amount,
            total_yes_amount: 0,
            total_no_amount: 0,
            yes_bettors: 0,
            no_bettors: 0,
            end_time,
            resolved: false,
            outcome: false,
            token_mint: ctx.token_mint,
            vault: ctx.vault_token_account.key,
            bump: ctx.bumps.bet,
            bump_vault_authority: ctx.bumps.vault_authority,
            bump_vault_ta: ctx.bumps.vault_token_account,
        },
    );
    Ok(())
}

/// Opens a market under `title` at the time that the runtime tells, with a
/// stake of `bet_amount` for every participant and a betting window that
/// closes at `end_time`.
///
/// When a market is recorded under the title already, the call is refused
/// with [`BettingError::CreateConflict`], whatever the time. Otherwise the
/// runtime is asked for the time. Where it gives an error instead, the call
/// fails with that error and nothing changes. Where it gives the time, the
/// call comes to what [`create_bet_at`] makes of it at that time.
pub fn create_bet(ctx: &mut CreateBet, title: String, bet_amount: u64, end_time: i64) -> (result:
    Result<(), InstructionError>)
    requires
        old(ctx).sound_terms(title@, bet_amount),
    ensures
        old(ctx).bet is Some ==> result == Err::<(), InstructionError>(
            InstructionError::Refused(BettingError::CreateConflict),
        ),
        result is Ok ==> old(ctx).carried_out_at_some_time(
            title,
            bet_amount,
            end_time,
            *final(ctx),
            Ok::<(), BettingError>(()),
        ),
        result matches Err(InstructionError::Refused(e)) ==> old(ctx).carried_out_at_some_time(
            title,
            bet_amount,
            end_time,
            *final(ctx),
            Err::<(), BettingError>(e),
        ),
        result matches Err(InstructionError::Runtime(_)) ==> *final(ctx) == *old(ctx),
{
    if ctx.bet.is_some() {
        let refused: Result<(), BettingError> = Err(BettingError::CreateConflict);
        assert(ctx.carried_out(title, bet_amount, end_time, 0i64, *ctx, refused));
        assert(ctx.carried_out_at_some_time(title, bet_amount, end_time, *ctx, refused));
        return Err(InstructionError::Refused(BettingError::CreateConflict));
    }
    match unix_timestamp() {
        Ok(now) => {
            let ghost terms = title;
            match create_bet_at(ctx, title, bet_amount, end_time, now) {
                Ok(()) => {
                    let ghost accepted: Result<(), BettingError> = Ok(());
                    assert(old(ctx).carried_out(terms, bet_amount, end_time, now, *ctx, accepted));
                    assert(old(ctx).carried_out_at_some_time(
                        terms,
                        bet_amount,
                        end_time,
                        *ctx,
                        accepted,
                    ));
                    Ok(())
                },
                Err(e) => {
                    let ghost refused: Result<(), BettingError> = Err(e);
                    assert(old(ctx).carried_out(terms, bet_amount, end_time, now, *ctx, refused));
                    assert(old(ctx).carried_out_at_some_time(
                        terms,
                        bet_amount,
                        end_time,
                        *ctx,
                        refused,
                    ));
                    Err(InstructionError::Refused(e))
                },
            }
        },
        Err(e) => Err(InstructionError::Runtime(e)),
    }
}

} // verus!
