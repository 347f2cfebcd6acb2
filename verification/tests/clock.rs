//! The instructions that ask the runtime for the time. No runtime answers a
//! test, so what can be seen here is what they decide before they ask, and
//! that a call without an answer changes nothing.

use anchor_lang::prelude::ProgramError;
use betting::{
    create_bet, place_bet, resolve_bet, Address, Bet, BettingError, CreateBet, CreateBetBumps,
    InstructionError, PlaceBet, PlaceBetBumps, ResolveBet, TokenAccount, UserBet,
};

fn refused<T>(e: BettingError) -> Result<T, InstructionError> {
    Err(InstructionError::Refused(e))
}

fn unanswered<T>() -> Result<T, InstructionError> {
    Err(InstructionError::Runtime(ProgramError::UnsupportedSysvar))
}

fn at(n: u8) -> Address {
    Address::new([n; 32])
}

fn open_market() -> Bet {
    Bet {
        creator: at(1),
        title: String::from("Heads?"),
        bet_amount: 50,
        total_yes_amount: 100,
        total_no_amount: 50,
        yes_bettors: 2,
        no_bettors: 1,
        end_time: i64::MAX,
        resolved: false,
        outcome: false,
        token_mint: at(2),
        vault: at(3),
        bump: 9,
        bump_vault_authority: 8,
        bump_vault_ta: 7,
    }
}

fn stake(bet: Bet) -> PlaceBet {
    PlaceBet {
        bettor: at(10),
        bet_key: at(4),
        bet,
        user_bet: None,
        bettor_token_account: TokenAccount { key: at(11), amount: 80 },
        vault_token_account: TokenAccount { key: at(3), amount: 150 },
        bumps: PlaceBetBumps { user_bet: 42 },
    }
}

#[test]
fn place_refuses_a_resolved_market_without_asking_the_time() {
    let mut bet = open_market();
    bet.resolved = true;
    let mut ctx = stake(bet);
    let before = ctx.clone();
    assert_eq!(place_bet(&mut ctx, true), refused(BettingError::BetAlreadyResolved));
    assert_eq!(place_bet(&mut ctx, false), refused(BettingError::BetAlreadyResolved));
    assert_eq!(ctx, before);
}

#[test]
fn place_changes_nothing_without_the_time() {
    let mut ctx = stake(open_market());
    assert!(ctx.has_room(true));
    let before = ctx.clone();
    assert_eq!(place_bet(&mut ctx, true), unanswered());
    assert_eq!(ctx, before);

    // Nothing else is looked at before the time is.
    ctx.user_bet = Some(UserBet {
        user: at(10),
        bet: at(4),
        amount: 50,
        direction: true,
        claimed: false,
        bump: 42,
    });
    ctx.vault_token_account.key = at(99);
    ctx.bettor_token_account.amount = 0;
    let before = ctx.clone();
    assert_eq!(place_bet(&mut ctx, true), unanswered());
    assert_eq!(ctx, before);
}

#[test]
fn resolve_refuses_resolved_markets_and_strangers_without_asking_the_time() {
    let mut bet = open_market();
    bet.resolved = true;
    bet.outcome = true;
    let mut ctx = ResolveBet { creator: at(1), bet };
    let before = ctx.clone();
    assert_eq!(resolve_bet(&mut ctx, false), refused(BettingError::BetAlreadyResolved));
    assert_eq!(ctx, before);
    // A resolved market refuses a stranger for the same reason.
    ctx.creator = at(10);
    let before = ctx.clone();
    assert_eq!(resolve_bet(&mut ctx, false), refused(BettingError::BetAlreadyResolved));
    assert_eq!(ctx, before);

    let mut ctx = ResolveBet { creator: at(10), bet: open_market() };
    let before = ctx.clone();
    assert_eq!(resolve_bet(&mut ctx, true), refused(BettingError::NotCreator));
    assert_eq!(ctx, before);
}

#[test]
fn resolve_changes_nothing_without_the_time() {
    let mut bet = open_market();
    bet.end_time = i64::MIN;
    let mut ctx = ResolveBet { creator: at(1), bet };
    let before = ctx.clone();
    assert_eq!(resolve_bet(&mut ctx, true), unanswered());
    assert_eq!(ctx, before);
}

fn opening_of_a_market() -> CreateBet {
    CreateBet {
        signer: at(1),
        bet: None,
        vault_token_account: TokenAccount { key: at(3), amount: 0 },
        token_mint: at(2),
        bumps: CreateBetBumps { bet: 9, vault_authority: 8, vault_token_account: 7 },
    }
}

#[test]
fn create_refuses_a_taken_title_without_asking_the_time() {
    let mut ctx = opening_of_a_market();
    ctx.bet = Some(open_market());
    let before = ctx.clone();
    assert!(ctx.has_sound_terms("Heads?", 50));
    assert_eq!(
        create_bet(&mut ctx, String::from("Heads?"), 50, i64::MAX),
        refused(BettingError::CreateConflict)
    );
    assert_eq!(ctx, before);
}

#[test]
fn create_changes_nothing_without_the_time() {
    let mut ctx = opening_of_a_market();
    let before = ctx.clone();
    assert!(ctx.has_sound_terms("Heads?", 50));
    assert_eq!(create_bet(&mut ctx, String::from("Heads?"), 50, i64::MAX), unanswered());
    assert_eq!(ctx, before);
}
