//! Each instruction on its own: what it records, when it is refused, and
//! that a refusal changes nothing.

use betting::{
    claim_winnings, create_bet_at, place_bet_at, resolve_bet_at, Address, Bet, BettingError,
    ClaimWinnings, CreateBet, CreateBetBumps, PlaceBet, PlaceBetBumps, ResolveBet, TokenAccount,
    Transfer, UserBet, MAX_TITLE_LEN,
};

fn key(n: u8) -> Address {
    Address::new([n; 32])
}

fn market(stake: u64, end_time: i64) -> Bet {
    Bet {
        creator: key(1),
        title: String::from("Heads?"),
        bet_amount: stake,
        total_yes_amount: 0,
        total_no_amount: 0,
        yes_bettors: 0,
        no_bettors: 0,
        end_time,
        resolved: false,
        outcome: false,
        token_mint: key(2),
        vault: key(3),
        bump: 9,
        bump_vault_authority: 8,
        bump_vault_ta: 7,
    }
}

fn stake_on(bet: Bet, funds: u64) -> PlaceBet {
    PlaceBet {
        bettor: key(10),
        bet_key: key(4),
        bet,
        user_bet: None,
        bettor_token_account: TokenAccount { key: key(11), amount: funds },
        vault_token_account: TokenAccount { key: key(3), amount: 0 },
        bumps: PlaceBetBumps { user_bet: 42 },
    }
}

fn position(direction: bool, amount: u64) -> UserBet {
    UserBet { user: key(10), bet: key(4), amount, direction, claimed: false, bump: 42 }
}

fn claim_on(bet: Bet, user_bet: UserBet) -> ClaimWinnings {
    ClaimWinnings {
        user: key(10),
        bet_key: key(4),
        bet,
        user_bet,
        vault_authority: key(5),
        vault_token_account: TokenAccount { key: key(3), amount: 1_000 },
        user_token_account: TokenAccount { key: key(11), amount: 0 },
    }
}

fn opening() -> CreateBet {
    CreateBet {
        signer: key(1),
        bet: None,
        vault_token_account: TokenAccount { key: key(3), amount: 0 },
        token_mint: key(2),
        bumps: CreateBetBumps { bet: 9, vault_authority: 8, vault_token_account: 7 },
    }
}

#[test]
fn create_records_the_terms_with_nothing_staked() {
    let mut ctx = opening();
    assert_eq!(create_bet_at(&mut ctx, String::from("Heads?"), 50, 100, 99), Ok(()));
    assert_eq!(ctx.bet, Some(market(50, 100)));
    assert_eq!(ctx.signer, key(1));
    assert_eq!(ctx.vault_token_account, TokenAccount { key: key(3), amount: 0 });
    assert_eq!(ctx.token_mint, key(2));
    assert_eq!(ctx.bumps, CreateBetBumps { bet: 9, vault_authority: 8, vault_token_account: 7 });
}

#[test]
fn create_refuses_a_title_that_is_taken() {
    let mut ctx = opening();
    ctx.bet = Some(market(50, 100));
    let before = ctx.clone();
    assert_eq!(
        create_bet_at(&mut ctx, String::from("Heads?"), 70, 200, 0),
        Err(BettingError::CreateConflict)
    );
    assert_eq!(ctx, before);
}

#[test]
fn create_refuses_a_window_that_would_never_open() {
    let mut ctx = opening();
    let before = ctx.clone();
    assert_eq!(
        create_bet_at(&mut ctx, String::from("Heads?"), 50, 100, 100),
        Err(BettingError::BetEndTimeExceeded)
    );
    assert_eq!(
        create_bet_at(&mut ctx, String::from("Heads?"), 50, 100, 101),
        Err(BettingError::BetEndTimeExceeded)
    );
    assert_eq!(
        create_bet_at(&mut ctx, String::from("Heads?"), 50, i64::MIN, i64::MIN),
        Err(BettingError::BetEndTimeExceeded)
    );
    assert_eq!(ctx, before);
    assert_eq!(create_bet_at(&mut ctx, String::from("Heads?"), 50, i64::MAX, i64::MIN), Ok(()));
    assert_eq!(ctx.bet.map(|bet| bet.end_time), Some(i64::MAX));
}

#[test]
fn create_looks_at_the_title_before_the_time() {
    let mut ctx = opening();
    ctx.bet = Some(market(50, 100));
    let before = ctx.clone();
    assert_eq!(
        create_bet_at(&mut ctx, String::from("Heads?"), 50, 100, 100),
        Err(BettingError::CreateConflict)
    );
    assert_eq!(ctx, before);
}

#[test]
fn create_takes_sound_terms_only() {
    let ctx = opening();
    assert!(ctx.has_sound_terms("Heads?", 1));
    assert!(ctx.has_sound_terms("", u64::MAX));
    assert!(!ctx.has_sound_terms("Heads?", 0));

    let longest = "x".repeat(MAX_TITLE_LEN);
    let too_long = "x".repeat(MAX_TITLE_LEN + 1);
    assert!(ctx.has_sound_terms(&longest, 1));
    assert!(!ctx.has_sound_terms(&too_long, 1));
    // The bound is on bytes: fifty two-byte letters fit, fifty-one do not.
    assert!(ctx.has_sound_terms(&"é".repeat(50), 1));
    assert!(!ctx.has_sound_terms(&"é".repeat(51), 1));
    // Thirty-three three-byte letters and one more byte fill the record.
    assert!(ctx.has_sound_terms(&("€".repeat(33) + "x"), 1));
    assert!(!ctx.has_sound_terms(&("€".repeat(33) + "xy"), 1));

    let mut used = opening();
    used.vault_token_account.amount = 1;
    assert!(!used.has_sound_terms("Heads?", 1));
}

#[test]
fn create_records_the_longest_title() {
    let mut ctx = opening();
    let title = "é".repeat(50);
    assert!(ctx.has_sound_terms(&title, 50));
    assert_eq!(create_bet_at(&mut ctx, title.clone(), 50, 100, 99), Ok(()));
    assert_eq!(ctx.bet.map(|bet| bet.title), Some(title));
}

#[test]
fn place_records_a_yes_stake() {
    let mut ctx = stake_on(market(50, 100), 80);
    let before = ctx.clone();
    assert_eq!(
        place_bet_at(&mut ctx, true, 99),
        Ok(Transfer { from: key(11), to: key(3), authority: key(10), amount: 50 })
    );
    assert_eq!(ctx.bet.yes_bettors, 1);
    assert_eq!(ctx.bet.total_yes_amount, 50);
    assert_eq!(ctx.bet.no_bettors, 0);
    assert_eq!(ctx.bet.total_no_amount, 0);
    assert_eq!(ctx.user_bet, Some(position(true, 50)));
    let mut expected = before;
    expected.bet.yes_bettors = 1;
    expected.bet.total_yes_amount = 50;
    expected.user_bet = Some(position(true, 50));
    assert_eq!(ctx, expected);
}

#[test]
fn place_records_a_no_stake() {
    let mut bet = market(50, 100);
    bet.yes_bettors = 2;
    bet.total_yes_amount = 100;
    bet.no_bettors = 1;
    bet.total_no_amount = 50;
    let mut ctx = stake_on(bet, 50);
    assert_eq!(
        place_bet_at(&mut ctx, false, i64::MIN),
        Ok(Transfer { from: key(11), to: key(3), authority: key(10), amount: 50 })
    );
    assert_eq!(ctx.bet.yes_bettors, 2);
    assert_eq!(ctx.bet.total_yes_amount, 100);
    assert_eq!(ctx.bet.no_bettors, 2);
    assert_eq!(ctx.bet.total_no_amount, 100);
    assert_eq!(ctx.user_bet, Some(position(false, 50)));
}

#[test]
fn place_refuses_funds_short_of_the_stake() {
    let mut ctx = stake_on(market(50, 100), 49);
    let before = ctx.clone();
    assert_eq!(place_bet_at(&mut ctx, true, 0), Err(BettingError::InsufficientFunds));
    assert_eq!(ctx, before);
    let mut exact = stake_on(market(50, 100), 50);
    assert!(place_bet_at(&mut exact, true, 0).is_ok());
}

#[test]
fn place_refuses_a_foreign_vault() {
    let mut ctx = stake_on(market(50, 100), 80);
    let mut other = key(3).to_bytes();
    other[31] ^= 1;
    ctx.vault_token_account.key = Address::new(other);
    let before = ctx.clone();
    assert_eq!(place_bet_at(&mut ctx, true, 0), Err(BettingError::InvalidVault));
    assert_eq!(ctx, before);
}

#[test]
fn place_refuses_a_second_position() {
    let mut ctx = stake_on(market(50, 100), 80);
    ctx.user_bet = Some(position(false, 50));
    let before = ctx.clone();
    assert_eq!(place_bet_at(&mut ctx, true, 0), Err(BettingError::DuplicatePosition));
    assert_eq!(ctx, before);
}

#[test]
fn place_tries_its_conditions_in_order() {
    // Everything is wrong at once; each repair uncovers the next refusal.
    let mut bet = market(50, 100);
    bet.resolved = true;
    let mut ctx = stake_on(bet, 0);
    ctx.vault_token_account.key = key(99);
    ctx.user_bet = Some(position(true, 50));
    assert_eq!(place_bet_at(&mut ctx, true, 100), Err(BettingError::BetAlreadyResolved));
    ctx.bet.resolved = false;
    assert_eq!(place_bet_at(&mut ctx, true, 100), Err(BettingError::BetEndTimeExceeded));
    assert_eq!(place_bet_at(&mut ctx, true, 99), Err(BettingError::InvalidVault));
    ctx.vault_token_account.key = key(3);
    assert_eq!(place_bet_at(&mut ctx, true, 99), Err(BettingError::DuplicatePosition));
    ctx.user_bet = None;
    assert_eq!(place_bet_at(&mut ctx, true, 99), Err(BettingError::InsufficientFunds));
    ctx.bettor_token_account.amount = 50;
    assert!(place_bet_at(&mut ctx, true, 99).is_ok());
}

#[test]
fn a_market_has_room_until_the_pool_is_full() {
    let mut bet = market(50, 100);
    bet.total_yes_amount = u64::MAX - 100;
    bet.total_no_amount = 50;
    assert!(bet.has_room(true) && bet.has_room(false));
    bet.total_no_amount = 51;
    assert!(!bet.has_room(true) && !bet.has_room(false));
    bet.total_yes_amount = u64::MAX;
    bet.total_no_amount = 1;
    assert!(!bet.has_room(true) && !bet.has_room(false));

    // Only the counter of the side chosen has to be able to grow.
    let mut crowded = market(50, 100);
    crowded.yes_bettors = u64::MAX;
    assert!(!crowded.has_room(true));
    assert!(crowded.has_room(false));
    let mut crowded = market(50, 100);
    crowded.no_bettors = u64::MAX;
    assert!(crowded.has_room(true));
    assert!(!crowded.has_room(false));
    let mut nearly = market(50, 100);
    nearly.no_bettors = u64::MAX - 1;
    assert!(nearly.has_room(false));
}

fn full_market() -> Bet {
    let mut bet = market(50, 100);
    bet.total_yes_amount = u64::MAX;
    bet.yes_bettors = u64::MAX;
    bet.no_bettors = u64::MAX;
    bet
}

#[test]
fn a_full_market_still_refuses_as_any_other() {
    // No stake is added where the stake is refused, so no room is needed.
    let mut resolved = full_market();
    resolved.resolved = true;
    let mut ctx = stake_on(resolved, 80);
    assert!(ctx.has_room(true));
    let before = ctx.clone();
    assert_eq!(place_bet_at(&mut ctx, true, 0), Err(BettingError::BetAlreadyResolved));
    assert_eq!(ctx, before);

    let mut ctx = stake_on(full_market(), 80);
    let before = ctx.clone();
    assert_eq!(place_bet_at(&mut ctx, true, 100), Err(BettingError::BetEndTimeExceeded));
    assert_eq!(ctx, before);

    let mut ctx = stake_on(full_market(), 80);
    ctx.vault_token_account.key = key(99);
    assert!(ctx.has_room(false));
    let before = ctx.clone();
    assert_eq!(place_bet_at(&mut ctx, false, 0), Err(BettingError::InvalidVault));
    assert_eq!(ctx, before);

    let mut ctx = stake_on(full_market(), 80);
    ctx.user_bet = Some(position(true, 50));
    assert!(ctx.has_room(true));
    let before = ctx.clone();
    assert_eq!(place_bet_at(&mut ctx, true, 0), Err(BettingError::DuplicatePosition));
    assert_eq!(ctx, before);

    let mut ctx = stake_on(full_market(), 49);
    assert!(ctx.has_room(true));
    let before = ctx.clone();
    assert_eq!(place_bet_at(&mut ctx, true, 0), Err(BettingError::InsufficientFunds));
    assert_eq!(ctx, before);

    // Where nothing but the time can refuse the stake, room is asked for.
    assert!(!stake_on(full_market(), 50).has_room(true));
    assert!(stake_on(market(50, 100), 50).has_room(true));
}

#[test]
fn resolve_fixes_the_outcome() {
    let mut ctx = ResolveBet { creator: key(1), bet: market(50, 100) };
    assert_eq!(resolve_bet_at(&mut ctx, true, 100), Ok(()));
    let mut expected = market(50, 100);
    expected.resolved = true;
    expected.outcome = true;
    assert_eq!(ctx.bet, expected);
    assert_eq!(ctx.creator, key(1));

    let mut ctx = ResolveBet { creator: key(1), bet: market(50, 100) };
    assert_eq!(resolve_bet_at(&mut ctx, false, i64::MAX), Ok(()));
    assert!(ctx.bet.resolved);
    assert!(!ctx.bet.outcome);
}

#[test]
fn resolve_is_for_the_creator_alone() {
    let mut ctx = ResolveBet { creator: key(10), bet: market(50, 100) };
    let before = ctx.clone();
    assert_eq!(resolve_bet_at(&mut ctx, true, 100), Err(BettingError::NotCreator));
    assert_eq!(resolve_bet_at(&mut ctx, true, 99), Err(BettingError::NotCreator));
    assert_eq!(ctx, before);
}

#[test]
fn resolve_waits_for_the_window_to_close() {
    let mut ctx = ResolveBet { creator: key(1), bet: market(50, 100) };
    let before = ctx.clone();
    assert_eq!(resolve_bet_at(&mut ctx, true, 99), Err(BettingError::BetNotEnded));
    assert_eq!(resolve_bet_at(&mut ctx, true, i64::MIN), Err(BettingError::BetNotEnded));
    assert_eq!(ctx, before);
}

#[test]
fn resolve_tries_its_conditions_in_order() {
    // A resolved market refuses everybody, at any time.
    let mut bet = market(50, 100);
    bet.resolved = true;
    bet.outcome = true;
    let mut ctx = ResolveBet { creator: key(10), bet };
    let before = ctx.clone();
    assert_eq!(resolve_bet_at(&mut ctx, false, 0), Err(BettingError::BetAlreadyResolved));
    assert_eq!(resolve_bet_at(&mut ctx, true, 100), Err(BettingError::BetAlreadyResolved));
    assert_eq!(ctx, before);
    ctx.creator = key(1);
    assert_eq!(resolve_bet_at(&mut ctx, false, 0), Err(BettingError::BetAlreadyResolved));
    assert_eq!(resolve_bet_at(&mut ctx, false, 100), Err(BettingError::BetAlreadyResolved));
    assert!(ctx.bet.outcome);

    // An unresolved one refuses a stranger before it looks at the time.
    ctx.bet.resolved = false;
    ctx.creator = key(10);
    assert_eq!(resolve_bet_at(&mut ctx, false, 0), Err(BettingError::NotCreator));
    ctx.creator = key(1);
    assert_eq!(resolve_bet_at(&mut ctx, false, 0), Err(BettingError::BetNotEnded));
    assert_eq!(resolve_bet_at(&mut ctx, false, 100), Ok(()));
}

fn settled(yes: u64, no: u64, stake: u64, outcome: bool) -> Bet {
    let mut bet = market(stake, 100);
    bet.yes_bettors = yes;
    bet.no_bettors = no;
    bet.total_yes_amount = yes * stake;
    bet.total_no_amount = no * stake;
    bet.resolved = true;
    bet.outcome = outcome;
    bet
}

#[test]
fn claim_pays_the_share_and_marks_the_position() {
    let mut ctx = claim_on(settled(2, 1, 100, true), position(true, 100));
    let before = ctx.clone();
    assert_eq!(
        claim_winnings(&mut ctx),
        Ok(Transfer { from: key(3), to: key(11), authority: key(5), amount: 150 })
    );
    let mut expected = before;
    expected.user_bet.claimed = true;
    assert_eq!(ctx, expected);
}

#[test]
fn claim_pays_no_winners_too() {
    let mut ctx = claim_on(settled(5, 2, 9, false), position(false, 9));
    // floor(63 * 9 / 18)
    assert_eq!(claim_winnings(&mut ctx).map(|t| t.amount), Ok(31));
    assert!(ctx.user_bet.claimed);
}

#[test]
fn claim_waits_for_the_resolution() {
    let mut bet = settled(2, 1, 100, true);
    bet.resolved = false;
    let mut ctx = claim_on(bet, position(true, 100));
    let before = ctx.clone();
    assert_eq!(claim_winnings(&mut ctx), Err(BettingError::BetNotResolved));
    assert_eq!(ctx, before);
}

#[test]
fn claim_is_refused_once_paid() {
    let mut paid = position(true, 100);
    paid.claimed = true;
    let mut ctx = claim_on(settled(2, 1, 100, true), paid);
    let before = ctx.clone();
    assert_eq!(claim_winnings(&mut ctx), Err(BettingError::AlreadyClaimed));
    assert_eq!(ctx, before);
}

#[test]
fn claim_is_for_winners_alone() {
    let mut ctx = claim_on(settled(2, 1, 100, true), position(false, 100));
    let before = ctx.clone();
    assert_eq!(claim_winnings(&mut ctx), Err(BettingError::NotWinner));
    assert_eq!(ctx, before);
}

#[test]
fn claim_refuses_a_foreign_vault() {
    let mut ctx = claim_on(settled(2, 1, 100, true), position(true, 100));
    ctx.vault_token_account.key = key(33);
    let before = ctx.clone();
    assert_eq!(claim_winnings(&mut ctx), Err(BettingError::InvalidVault));
    assert_eq!(ctx, before);
}

#[test]
fn claim_needs_winners_and_a_winning_pool() {
    // No position is counted on the winning side, and nothing is staked
    // there: a claim for it finds no winners.
    let mut bet = settled(0, 3, 100, true);
    let mut ctx = claim_on(bet.clone(), position(true, 100));
    assert!(ctx.is_wf());
    let before = ctx.clone();
    assert_eq!(claim_winnings(&mut ctx), Err(BettingError::NoWinners));
    assert_eq!(ctx, before);

    // A position is counted there, but nothing is staked.
    bet.yes_bettors = 1;
    let mut ctx = claim_on(bet, position(true, 100));
    assert!(ctx.is_wf());
    let before = ctx.clone();
    assert_eq!(claim_winnings(&mut ctx), Err(BettingError::NoWinningPool));
    assert_eq!(ctx, before);
}

#[test]
fn claim_on_the_side_nobody_backed_finds_no_winners() {
    let mut bet = settled(1, 0, 10, false);
    bet.vault = key(3);
    let mut ctx = claim_on(bet, position(false, 10));
    assert!(ctx.is_wf());
    let before = ctx.clone();
    assert_eq!(claim_winnings(&mut ctx), Err(BettingError::NoWinners));
    assert_eq!(ctx, before);
    assert!(!ctx.user_bet.claimed);
}

#[test]
fn claim_tries_its_conditions_in_order() {
    let mut bet = settled(0, 0, 100, true);
    bet.resolved = false;
    let mut user_bet = position(false, 100);
    user_bet.claimed = true;
    let mut ctx = claim_on(bet, user_bet);
    ctx.vault_token_account.key = key(33);
    assert!(ctx.is_wf());
    assert_eq!(claim_winnings(&mut ctx), Err(BettingError::BetNotResolved));
    ctx.bet.resolved = true;
    assert_eq!(claim_winnings(&mut ctx), Err(BettingError::AlreadyClaimed));
    ctx.user_bet.claimed = false;
    assert_eq!(claim_winnings(&mut ctx), Err(BettingError::NotWinner));
    ctx.user_bet.direction = true;
    assert_eq!(claim_winnings(&mut ctx), Err(BettingError::InvalidVault));
    ctx.vault_token_account.key = key(3);
    assert_eq!(claim_winnings(&mut ctx), Err(BettingError::NoWinners));
    ctx.bet.yes_bettors = 1;
    assert_eq!(claim_winnings(&mut ctx), Err(BettingError::NoWinningPool));
    ctx.bet.total_yes_amount = 100;
    assert!(ctx.is_wf());
    assert_eq!(claim_winnings(&mut ctx).map(|t| t.amount), Ok(100));
}

#[test]
fn claim_takes_records_that_fit_together() {
    let good = claim_on(settled(2, 1, 100, true), position(true, 100));
    assert!(good.is_wf());

    let mut of_another = good.clone();
    of_another.user = key(12);
    assert!(!of_another.is_wf());

    let mut of_another_market = good.clone();
    of_another_market.bet_key = key(44);
    assert!(!of_another_market.is_wf());

    // A stake has to be part of the winning pool where the claim is
    // accepted, and nowhere else.
    let mut too_large = good.clone();
    too_large.user_bet.amount = 201;
    assert!(!too_large.is_wf());
    too_large.user_bet.amount = 200;
    assert!(too_large.is_wf());
    too_large.user_bet.amount = 201;
    too_large.user_bet.claimed = true;
    assert!(too_large.is_wf());
    too_large.user_bet.claimed = false;
    too_large.user_bet.direction = false;
    assert!(too_large.is_wf());
    too_large.user_bet.direction = true;
    too_large.bet.resolved = false;
    assert!(too_large.is_wf());
    too_large.bet.resolved = true;
    too_large.vault_token_account.key = key(33);
    assert!(too_large.is_wf());

    let mut overfull = good.clone();
    overfull.bet.total_yes_amount = u64::MAX;
    overfull.bet.total_no_amount = 1;
    assert!(!overfull.is_wf());
    overfull.bet.total_no_amount = 0;
    assert!(overfull.is_wf());
    overfull.bet.total_no_amount = 1;
    overfull.bet.resolved = false;
    assert!(overfull.is_wf());
    assert_eq!(claim_winnings(&mut overfull), Err(BettingError::BetNotResolved));
}

#[test]
fn claim_handles_the_largest_pool() {
    let mut bet = settled(1, 0, 1, true);
    bet.total_yes_amount = u64::MAX;
    let mut ctx = claim_on(bet, position(true, u64::MAX));
    assert!(ctx.is_wf());
    assert_eq!(claim_winnings(&mut ctx).map(|t| t.amount), Ok(u64::MAX));
}
