//! What holds of every market, whatever instructions it is sent.

use crate::address::Address;
use crate::create::CreateBet;
use crate::error::BettingError;
use crate::ledger::model::{Instruction, Ledger};
use crate::ledger::sums::{
    backers, backs, claimed_stake, claimed_stake_of, lemma_sum_covers, lemma_sum_le,
    lemma_sum_push, lemma_sum_scaled, lemma_sum_scaled_le, lemma_sum_update,
    lemma_sum_vanishes, paid, paid_to, stake_on, staked,
};
use crate::payout::{lemma_payout_exact, lemma_payout_within_pool, payout};
use crate::place::{PlaceBet, PlaceBetBumps};
use crate::state::{TokenAccount, UserBet};
use vstd::arithmetic::div_mod::{lemma_div_multiples_vanish_quotient, lemma_fundamental_div_mod};
use vstd::prelude::*;

verus! {

/// While nobody has claimed, nothing has been paid out.
proof fn lemma_unclaimed_unpaid(positions: Seq<UserBet>, total_pool: int, winning_pool: int)
    requires
        forall|i: int| 0 <= i < positions.len() ==> !(#[trigger] positions[i]).claimed,
    ensures
        paid(positions, total_pool, winning_pool) == 0,
{
    lemma_sum_vanishes(positions, |p: UserBet| paid_to(p, total_pool, winning_pool));
}

/// A position's stake is part of what is staked on its side.
proof fn lemma_stake_within_side(positions: Seq<UserBet>, i: int)
    requires
        0 <= i < positions.len(),
    ensures
        positions[i].amount <= staked(positions, positions[i].direction),
{
    let direction = positions[i].direction;
    lemma_sum_covers(positions, |p: UserBet| stake_on(p, direction), i);
}

/// In a well-formed ledger nobody holds two positions, so the slot of an
/// owner is wherever a position of that owner stands.
proof fn lemma_slot_is_where_the_owner_stands(ledger: Ledger, owner: Address, i: int)
    requires
        ledger.wf(),
        0 <= i < ledger.positions.len(),
        ledger.positions[i].user == owner,
    ensures
        ledger.holds(owner),
        ledger.slot(owner) == i,
        ledger.position_of(owner) == Some(ledger.positions[i]),
{
    assert(ledger.holds(owner));
    let j = ledger.slot(owner);
    if j < i {
        assert(ledger.positions[j].user != ledger.positions[i].user);
    }
    if i < j {
        assert(ledger.positions[i].user != ledger.positions[j].user);
    }
}

/// A stake keeps the totals of the market equal to the sums of the stakes
/// of its positions, side by side, whether it is accepted or refused: an
/// accepted stake adds its amount to the total of its side and its position
/// to the positions, and a refused one changes neither.
pub proof fn lemma_stake_keeps_totals(
    ctx: PlaceBet,
    positions: Seq<UserBet>,
    direction: bool,
    now: i64,
)
    requires
        ctx.bet.total_yes_amount == staked(positions, true),
        ctx.bet.total_no_amount == staked(positions, false),
        ctx.rejection(now) is None ==> ctx.bet.has_room(direction),
    ensures
        ({
            let accepted = ctx.rejection(now) is None;
            let after = if accepted {
                ctx.placed(direction)
            } else {
                ctx
            };
            let recorded = if accepted {
                positions.push(ctx.position(direction))
            } else {
                positions
            };
            &&& after.bet.total_yes_amount == staked(recorded, true)
            &&& after.bet.total_no_amount == staked(recorded, false)
        }),
{
    let position = ctx.position(direction);
    lemma_sum_push(positions, position, |p: UserBet| stake_on(p, true));
    lemma_sum_push(positions, position, |p: UserBet| stake_on(p, false));
}

/// In a well-formed ledger the records of every holder's claim fit
/// together, so a claim is turned away only where it is refused.
pub proof fn lemma_claim_records_fit(
    ledger: Ledger,
    user: Address,
    vault_authority: Address,
    vault_token_account: TokenAccount,
    user_token_account: TokenAccount,
)
    requires
        ledger.wf(),
        ledger.holds(user),
    ensures
        ledger.claim_winnings_context(
            user,
            vault_authority,
            vault_token_account,
            user_token_account,
        ).wf(),
{
    lemma_stake_within_side(ledger.positions, ledger.slot(user));
}

/// A well-formed ledger of an unresolved market has room for every stake
/// that its payer can afford, as long as the payer's funds and the custody
/// account together hold no more than fits in `u64`, as amounts of one
/// token do. So a stake is turned away only where it is refused.
pub proof fn lemma_funded_stake_has_room(ledger: Ledger, funds: u64)
    requires
        ledger.wf(),
        !ledger.bet.resolved,
        funds >= ledger.bet.bet_amount,
        funds + ledger.custody <= u64::MAX,
    ensures
        ledger.bet.has_room(true),
        ledger.bet.has_room(false),
{
    let positions = ledger.positions;
    let stake = ledger.bet.bet_amount as int;
    lemma_unclaimed_unpaid(positions, ledger.bet.total_pool(), ledger.bet.winning_pool());
    lemma_sum_scaled(positions, |p: UserBet| stake_on(p, true), stake, |p: UserBet| backs(p, true));
    lemma_sum_scaled(
        positions,
        |p: UserBet| stake_on(p, false),
        stake,
        |p: UserBet| backs(p, false),
    );
    let yes = backers(positions, true);
    let no = backers(positions, false);
    assert(yes <= stake * yes && no <= stake * no) by (nonlinear_arith)
        requires
            stake >= 1,
            yes >= 0,
            no >= 0,
    ;
}

/// A well-formed ledger stays so when a stake is accepted.
proof fn lemma_place_bet_keeps_wf(
    ledger: Ledger,
    bettor: Address,
    bettor_token_account: TokenAccount,
    vault_token_account: TokenAccount,
    bumps: PlaceBetBumps,
    direction: bool,
    now: i64,
)
    requires
        ledger.wf(),
        ledger.accepts(
            Instruction::PlaceBet {
                bettor,
                bettor_token_account,
                vault_token_account,
                bumps,
                direction,
                now,
            },
        ),
    ensures
        ledger.step(
            Instruction::PlaceBet {
                bettor,
                bettor_token_account,
                vault_token_account,
                bumps,
                direction,
                now,
            },
        ).wf(),
{
    let ctx = ledger.place_bet_context(bettor, bettor_token_account, vault_token_account, bumps);
    let after = ledger.step(
        Instruction::PlaceBet {
            bettor,
            bettor_token_account,
            vault_token_account,
            bumps,
            direction,
            now,
        },
    );
    let position = ctx.position(direction);
    assert(!ledger.bet.resolved);
    assert(!ledger.holds(bettor));
    lemma_funded_stake_has_room(ledger, bettor_token_account.amount);
    assert(after.positions == ledger.positions.push(position));
    lemma_sum_push(ledger.positions, position, |p: UserBet| stake_on(p, true));
    lemma_sum_push(ledger.positions, position, |p: UserBet| stake_on(p, false));
    lemma_sum_push(ledger.positions, position, |p: UserBet| backs(p, true));
    lemma_sum_push(ledger.positions, position, |p: UserBet| backs(p, false));
    lemma_unclaimed_unpaid(
        ledger.positions,
        ledger.bet.total_pool(),
        ledger.bet.winning_pool(),
    );
    lemma_unclaimed_unpaid(after.positions, after.bet.total_pool(), after.bet.winning_pool());
    assert forall|i: int, j: int| 0 <= i < j < after.positions.len() implies (
    #[trigger] after.positions[i]).user != (#[trigger] after.positions[j]).user by {
        if j == ledger.positions.len() {
            assert(ledger.positions[i].user != bettor);
        }
    }
}

/// A well-formed ledger stays so when an outcome is declared.
proof fn lemma_resolve_bet_keeps_wf(ledger: Ledger, creator: Address, outcome: bool, now: i64)
    requires
        ledger.wf(),
        ledger.accepts(Instruction::ResolveBet { creator, outcome, now }),
    ensures
        ledger.step(Instruction::ResolveBet { creator, outcome, now }).wf(),
{
    let after = ledger.step(Instruction::ResolveBet { creator, outcome, now });
    assert(!ledger.bet.resolved);
    lemma_unclaimed_unpaid(
        ledger.positions,
        ledger.bet.total_pool(),
        ledger.bet.winning_pool(),
    );
    lemma_unclaimed_unpaid(after.positions, after.bet.total_pool(), after.bet.winning_pool());
}

/// A well-formed ledger stays so when a claim is accepted.
proof fn lemma_claim_winnings_keeps_wf(
    ledger: Ledger,
    user: Address,
    vault_authority: Address,
    vault_token_account: TokenAccount,
    user_token_account: TokenAccount,
)
    requires
        ledger.wf(),
        ledger.accepts(
            Instruction::ClaimWinnings {
                user,
                vault_authority,
                vault_token_account,
                user_token_account,
            },
        ),
    ensures
        ledger.step(
            Instruction::ClaimWinnings {
                user,
                vault_authority,
                vault_token_account,
                user_token_account,
            },
        ).wf(),
{
    let ctx = ledger.claim_winnings_context(
        user,
        vault_authority,
        vault_token_account,
        user_token_account,
    );
    let after = ledger.step(
        Instruction::ClaimWinnings {
            user,
            vault_authority,
            vault_token_account,
            user_token_account,
        },
    );
    let i = ledger.slot(user);
    let before = ledger.positions[i];
    let claimed = ctx.claimed().user_bet;
    let total_pool = ledger.bet.total_pool();
    let winning_pool = ledger.bet.winning_pool();
    lemma_claim_records_fit(
        ledger,
        user,
        vault_authority,
        vault_token_account,
        user_token_account,
    );
    assert(after.positions == ledger.positions.update(i, claimed));
    lemma_sum_update(ledger.positions, i, claimed, |p: UserBet| stake_on(p, true));
    lemma_sum_update(ledger.positions, i, claimed, |p: UserBet| stake_on(p, false));
    lemma_sum_update(ledger.positions, i, claimed, |p: UserBet| backs(p, true));
    lemma_sum_update(ledger.positions, i, claimed, |p: UserBet| backs(p, false));
    lemma_sum_update(
        ledger.positions,
        i,
        claimed,
        |p: UserBet| paid_to(p, total_pool, winning_pool),
    );
    lemma_payout_within_pool(total_pool, before.amount as int, winning_pool);
}

/// A well-formed ledger stays so under every instruction.
pub proof fn lemma_step_keeps_wf(ledger: Ledger, instruction: Instruction)
    requires
        ledger.wf(),
    ensures
        ledger.step(instruction).wf(),
{
    if ledger.accepts(instruction) {
        match instruction {
            Instruction::PlaceBet {
                bettor,
                bettor_token_account,
                vault_token_account,
                bumps,
                direction,
                now,
            } => {
                lemma_place_bet_keeps_wf(
                    ledger,
                    bettor,
                    bettor_token_account,
                    vault_token_account,
                    bumps,
                    direction,
                    now,
                );
            },
            Instruction::ResolveBet { creator, outcome, now } => {
                lemma_resolve_bet_keeps_wf(ledger, creator, outcome, now);
            },
            Instruction::ClaimWinnings {
                user,
                vault_authority,
                vault_token_account,
                user_token_account,
            } => {
                lemma_claim_winnings_keeps_wf(
                    ledger,
                    user,
                    vault_authority,
                    vault_token_account,
                    user_token_account,
                );
            },
        }
    }
}

/// A well-formed ledger stays so under every sequence of instructions.
pub proof fn lemma_run_keeps_wf(ledger: Ledger, instructions: Seq<Instruction>)
    requires
        ledger.wf(),
    ensures
        ledger.run(instructions).wf(),
    decreases instructions.len(),
{
    if instructions.len() > 0 {
        lemma_run_keeps_wf(ledger, instructions.drop_last());
        lemma_step_keeps_wf(ledger.run(instructions.drop_last()), instructions.last());
    }
}

/// A market that has just been opened has a well-formed ledger, and its
/// custody account is empty.
pub proof fn lemma_opened_is_wf(
    ctx: CreateBet,
    key: Address,
    title: String,
    bet_amount: u64,
    end_time: i64,
)
    requires
        ctx.sound_terms(title@, bet_amount),
    ensures
        Ledger::opened(key, ctx.opened(title, bet_amount, end_time)).wf(),
        Ledger::opened(key, ctx.opened(title, bet_amount, end_time)).custody
            == ctx.vault_token_account.amount,
{
    let ledger = Ledger::opened(key, ctx.opened(title, bet_amount, end_time));
    lemma_unclaimed_unpaid(
        ledger.positions,
        ledger.bet.total_pool(),
        ledger.bet.winning_pool(),
    );
}

/// At every point in the life of a market, each of its two totals is the
/// sum of the stakes of the positions on that side, and each of its two
/// counters is the number of those positions.
pub proof fn lemma_totals_are_sums_of_stakes(
    ctx: CreateBet,
    key: Address,
    title: String,
    bet_amount: u64,
    end_time: i64,
    instructions: Seq<Instruction>,
)
    requires
        ctx.sound_terms(title@, bet_amount),
    ensures
        ({
            let ledger = Ledger::opened(key, ctx.opened(title, bet_amount, end_time)).run(
                instructions,
            );
            &&& ledger.bet.total_yes_amount == staked(ledger.positions, true)
            &&& ledger.bet.total_no_amount == staked(ledger.positions, false)
            &&& ledger.bet.yes_bettors == backers(ledger.positions, true)
            &&& ledger.bet.no_bettors == backers(ledger.positions, false)
        }),
{
    lemma_opened_is_wf(ctx, key, title, bet_amount, end_time);
    lemma_run_keeps_wf(Ledger::opened(key, ctx.opened(title, bet_amount, end_time)), instructions);
}

/// No instruction changes who created a market, what its stake is, or when
/// its betting window closes; and none undoes a resolution or changes the
/// outcome of a resolved market.
pub proof fn lemma_step_keeps_terms(ledger: Ledger, instruction: Instruction)
    ensures
        ledger.step(instruction).key == ledger.key,
        ledger.step(instruction).bet.creator == ledger.bet.creator,
        ledger.step(instruction).bet.bet_amount == ledger.bet.bet_amount,
        ledger.step(instruction).bet.end_time == ledger.bet.end_time,
        ledger.step(instruction).bet.vault == ledger.bet.vault,
        ledger.bet.resolved ==> ledger.step(instruction).bet.resolved && ledger.step(
            instruction,
        ).bet.outcome == ledger.bet.outcome,
{
}

/// No sequence of instructions changes who created a market, what its
/// stake is, or when its betting window closes; and none undoes a
/// resolution or changes the outcome of a resolved market.
pub proof fn lemma_run_keeps_terms(ledger: Ledger, instructions: Seq<Instruction>)
    ensures
        ledger.run(instructions).key == ledger.key,
        ledger.run(instructions).bet.creator == ledger.bet.creator,
        ledger.run(instructions).bet.bet_amount == ledger.bet.bet_amount,
        ledger.run(instructions).bet.end_time == ledger.bet.end_time,
        ledger.run(instructions).bet.vault == ledger.bet.vault,
        ledger.bet.resolved ==> ledger.run(instructions).bet.resolved && ledger.run(
            instructions,
        ).bet.outcome == ledger.bet.outcome,
    decreases instructions.len(),
{
    if instructions.len() > 0 {
        lemma_run_keeps_terms(ledger, instructions.drop_last());
        lemma_step_keeps_terms(ledger.run(instructions.drop_last()), instructions.last());
    }
}

/// Once a market is resolved, whatever instructions follow, every stake is
/// refused because the market is resolved.
pub proof fn lemma_resolved_market_refuses_stakes(
    ledger: Ledger,
    instructions: Seq<Instruction>,
    bettor: Address,
    bettor_token_account: TokenAccount,
    vault_token_account: TokenAccount,
    bumps: PlaceBetBumps,
    direction: bool,
    now: i64,
)
    requires
        ledger.bet.resolved,
    ensures
        ({
            let later = ledger.run(instructions);
            let stake = Instruction::PlaceBet {
                bettor,
                bettor_token_account,
                vault_token_account,
                bumps,
                direction,
                now,
            };
            &&& later.place_bet_context(
                bettor,
                bettor_token_account,
                vault_token_account,
                bumps,
            ).rejection(now) == Some(BettingError::BetAlreadyResolved)
            &&& later.step(stake) == later
        }),
{
    lemma_run_keeps_terms(ledger, instructions);
}

/// Once the betting window of a market has closed, whatever instructions
/// follow, every stake is refused: because the window has closed while the
/// market is not resolved, and because the market is resolved from then on.
pub proof fn lemma_closed_window_refuses_stakes(
    ledger: Ledger,
    instructions: Seq<Instruction>,
    bettor: Address,
    bettor_token_account: TokenAccount,
    vault_token_account: TokenAccount,
    bumps: PlaceBetBumps,
    direction: bool,
    now: i64,
)
    requires
        now >= ledger.bet.end_time,
    ensures
        ({
            let later = ledger.run(instructions);
            let stake = Instruction::PlaceBet {
                bettor,
                bettor_token_account,
                vault_token_account,
                bumps,
                direction,
                now,
            };
            &&& later.place_bet_context(
                bettor,
                bettor_token_account,
                vault_token_account,
                bumps,
            ).rejection(now) == Some(
                if later.bet.resolved {
                    BettingError::BetAlreadyResolved
                } else {
                    BettingError::BetEndTimeExceeded
                },
            )
            &&& later.step(stake) == later
        }),
{
    lemma_run_keeps_terms(ledger, instructions);
}

/// A market is resolved at most once. Once a declaration has been accepted,
/// whatever instructions follow, the market stays resolved with the outcome
/// declared, and every further declaration, whoever makes it and whenever,
/// is refused because the market is resolved.
pub proof fn lemma_resolution_is_final(
    ledger: Ledger,
    creator: Address,
    outcome: bool,
    now: i64,
    instructions: Seq<Instruction>,
    next_creator: Address,
    next_outcome: bool,
    next_now: i64,
)
    requires
        ledger.accepts(Instruction::ResolveBet { creator, outcome, now }),
    ensures
        ({
            let later = ledger.step(Instruction::ResolveBet { creator, outcome, now }).run(
                instructions,
            );
            let again = Instruction::ResolveBet {
                creator: next_creator,
                outcome: next_outcome,
                now: next_now,
            };
            &&& later.bet.resolved
            &&& later.bet.outcome == outcome
            &&& later.resolve_bet_context(next_creator).rejection(next_now) == Some(
                BettingError::BetAlreadyResolved,
            )
            &&& later.step(again) == later
        }),
{
    lemma_run_keeps_terms(
        ledger.step(Instruction::ResolveBet { creator, outcome, now }),
        instructions,
    );
}

/// No instruction removes a position, moves it, or changes its owner, its
/// stake or its side; and none takes back that a position has claimed.
pub proof fn lemma_step_keeps_positions(ledger: Ledger, instruction: Instruction, i: int)
    requires
        0 <= i < ledger.positions.len(),
    ensures
        i < ledger.step(instruction).positions.len(),
        ledger.step(instruction).positions[i] == ledger.positions[i] || ledger.step(
            instruction,
        ).positions[i] == (UserBet { claimed: true, ..ledger.positions[i] }),
{
}

/// No sequence of instructions removes a position, moves it, or changes its
/// owner, its stake or its side; and none takes back that a position has
/// claimed.
pub proof fn lemma_run_keeps_positions(ledger: Ledger, instructions: Seq<Instruction>, i: int)
    requires
        0 <= i < ledger.positions.len(),
    ensures
        i < ledger.run(instructions).positions.len(),
        ledger.run(instructions).positions[i] == ledger.positions[i] || ledger.run(
            instructions,
        ).positions[i] == (UserBet { claimed: true, ..ledger.positions[i] }),
    decreases instructions.len(),
{
    if instructions.len() > 0 {
        lemma_run_keeps_positions(ledger, instructions.drop_last(), i);
        lemma_step_keeps_positions(ledger.run(instructions.drop_last()), instructions.last(), i);
    }
}

/// A position is paid at most once. Once a claim has been accepted,
/// whatever instructions follow, the position stays claimed, and every
/// further claim by its owner is refused because it has been claimed:
/// nothing is paid, and the custody account is left as it is.
pub proof fn lemma_claim_is_final(
    ledger: Ledger,
    user: Address,
    vault_authority: Address,
    vault_token_account: TokenAccount,
    user_token_account: TokenAccount,
    instructions: Seq<Instruction>,
    next_vault_authority: Address,
    next_vault_token_account: TokenAccount,
    next_user_token_account: TokenAccount,
)
    requires
        ledger.wf(),
        ledger.accepts(
            Instruction::ClaimWinnings {
                user,
                vault_authority,
                vault_token_account,
                user_token_account,
            },
        ),
    ensures
        ({
            let later = ledger.step(
                Instruction::ClaimWinnings {
                    user,
                    vault_authority,
                    vault_token_account,
                    user_token_account,
                },
            ).run(instructions);
            let again = Instruction::ClaimWinnings {
                user,
                vault_authority: next_vault_authority,
                vault_token_account: next_vault_token_account,
                user_token_account: next_user_token_account,
            };
            &&& later.position_of(user) is Some
            &&& later.position_of(user)->0.claimed
            &&& later.claim_winnings_context(
                user,
                next_vault_authority,
                next_vault_token_account,
                next_user_token_account,
            ).rejection() == Some(BettingError::AlreadyClaimed)
            &&& later.step(again) == later
            &&& later.step(again).custody == later.custody
        }),
{
    let claim = Instruction::ClaimWinnings {
        user,
        vault_authority,
        vault_token_account,
        user_token_account,
    };
    let paid = ledger.step(claim);
    let later = paid.run(instructions);
    let i = ledger.slot(user);
    assert(paid.positions[i].user == user && paid.positions[i].claimed);
    lemma_step_keeps_wf(ledger, claim);
    lemma_run_keeps_wf(paid, instructions);
    lemma_run_keeps_positions(paid, instructions, i);
    assert(later.positions[i].user == user && later.positions[i].claimed);
    lemma_slot_is_where_the_owner_stands(later, user, i);
}

/// A position on the losing side is never paid. Once the market is resolved
/// against it, whatever instructions follow, the position stays unclaimed
/// and every claim by its owner is refused because it did not win.
pub proof fn lemma_losers_are_never_paid(
    ledger: Ledger,
    user: Address,
    instructions: Seq<Instruction>,
    vault_authority: Address,
    vault_token_account: TokenAccount,
    user_token_account: TokenAccount,
)
    requires
        ledger.wf(),
        ledger.bet.resolved,
        ledger.position_of(user) is Some,
        ledger.position_of(user)->0.direction != ledger.bet.outcome,
    ensures
        ({
            let later = ledger.run(instructions);
            let claim = Instruction::ClaimWinnings {
                user,
                vault_authority,
                vault_token_account,
                user_token_account,
            };
            &&& later.position_of(user) == ledger.position_of(user)
            &&& !later.position_of(user)->0.claimed
            &&& later.claim_winnings_context(
                user,
                vault_authority,
                vault_token_account,
                user_token_account,
            ).rejection() == Some(BettingError::NotWinner)
            &&& later.step(claim) == later
        }),
{
    let later = ledger.run(instructions);
    let i = ledger.slot(user);
    lemma_run_keeps_wf(ledger, instructions);
    lemma_run_keeps_terms(ledger, instructions);
    lemma_run_keeps_positions(ledger, instructions, i);
    assert(later.positions[i] == ledger.positions[i]);
    lemma_slot_is_where_the_owner_stands(later, user, i);
}

/// Where nobody backed the outcome, the stakes are stranded. Once a market
/// is resolved in favour of a side that counts no position, no instruction
/// changes anything again: nothing can be staked, declared or claimed, and
/// the custody account keeps what it holds.
pub proof fn lemma_pool_without_winners_is_stranded(
    ledger: Ledger,
    instructions: Seq<Instruction>,
)
    requires
        ledger.bet.resolved,
        ledger.bet.winning_bettors() == 0,
    ensures
        ledger.run(instructions) == ledger,
    decreases instructions.len(),
{
    if instructions.len() > 0 {
        lemma_pool_without_winners_is_stranded(ledger, instructions.drop_last());
        assert(!ledger.accepts(instructions.last()));
    }
}

/// A market never pays out more than was staked in it: what the positions
/// that have claimed were paid, taken together, is within the pool, and the
/// custody account holds the rest.
pub proof fn lemma_payouts_within_pool(ledger: Ledger)
    requires
        ledger.wf(),
    ensures
        0 <= ledger.paid_out() <= ledger.bet.total_pool(),
        ledger.custody == ledger.bet.total_pool() - ledger.paid_out(),
        0 <= ledger.custody,
{
    let positions = ledger.positions;
    let total_pool = ledger.bet.total_pool();
    let winning_pool = ledger.bet.winning_pool();
    let outcome = ledger.bet.outcome;
    let was_paid = |p: UserBet| paid_to(p, total_pool, winning_pool);
    if forall|i: int| 0 <= i < positions.len() ==> !(#[trigger] positions[i]).claimed {
        lemma_unclaimed_unpaid(positions, total_pool, winning_pool);
    } else {
        let k = choose|k: int| 0 <= k < positions.len() && (#[trigger] positions[k]).claimed;
        lemma_stake_within_side(positions, k);
        assert(winning_pool > 0);
        assert forall|i: int| 0 <= i < positions.len() implies was_paid(#[trigger] positions[i])
            * winning_pool <= total_pool * claimed_stake_of(positions[i]) && was_paid(positions[i])
            >= 0 by {
            let amount = positions[i].amount as int;
            lemma_payout_exact(total_pool, amount, winning_pool);
            if positions[i].claimed {
                lemma_stake_within_side(positions, i);
                lemma_payout_within_pool(total_pool, amount, winning_pool);
            }
        }
        lemma_sum_scaled_le(
            positions,
            was_paid,
            winning_pool,
            total_pool,
            |p: UserBet| claimed_stake_of(p),
        );
        lemma_sum_le(
            positions,
            |p: UserBet| claimed_stake_of(p),
            |p: UserBet| stake_on(p, outcome),
        );
        lemma_sum_le(positions, |p: UserBet| 0int, was_paid);
        lemma_sum_vanishes(positions, |p: UserBet| 0int);
        let spent = paid(positions, total_pool, winning_pool);
        let claimed = claimed_stake(positions);
        assert(spent <= total_pool) by (nonlinear_arith)
            requires
                spent * winning_pool <= total_pool * claimed,
                claimed <= winning_pool,
                0 < winning_pool,
                0 <= total_pool,
        ;
    }
}

/// Once every position on the winning side has claimed, each has been paid
/// the pool divided by the number of winners, rounded down, and what is
/// left in the custody account is the remainder of that division. Nobody
/// can claim it.
pub proof fn lemma_settled_market_keeps_remainder(ledger: Ledger)
    requires
        ledger.wf(),
        ledger.bet.resolved,
        ledger.bet.winning_bettors() > 0,
        forall|i: int|
            0 <= i < ledger.positions.len() && (#[trigger] ledger.positions[i]).direction
                == ledger.bet.outcome ==> ledger.positions[i].claimed,
    ensures
        ledger.paid_out() == ledger.bet.winning_bettors() * (ledger.bet.total_pool()
            / ledger.bet.winning_bettors()),
        ledger.custody == ledger.bet.total_pool() % ledger.bet.winning_bettors(),
{
    let positions = ledger.positions;
    let outcome = ledger.bet.outcome;
    let total_pool = ledger.bet.total_pool();
    let winning_pool = ledger.bet.winning_pool();
    let winners = ledger.bet.winning_bettors();
    let stake = ledger.bet.bet_amount as int;
    let share = total_pool / winners;
    lemma_sum_scaled(
        positions,
        |p: UserBet| stake_on(p, outcome),
        stake,
        |p: UserBet| backs(p, outcome),
    );
    assert(winning_pool == stake * winners);
    lemma_div_multiples_vanish_quotient(stake, total_pool, winners);
    assert(total_pool * stake == stake * total_pool) by (nonlinear_arith);
    assert(payout(total_pool, stake, winning_pool) == share);
    assert forall|i: int| 0 <= i < positions.len() implies paid_to(
        #[trigger] positions[i],
        total_pool,
        winning_pool,
    ) == share * backs(positions[i], outcome) by {
        assert(share * 1 == share && share * 0 == 0) by (nonlinear_arith);
    }
    lemma_sum_scaled(
        positions,
        |p: UserBet| paid_to(p, total_pool, winning_pool),
        share,
        |p: UserBet| backs(p, outcome),
    );
    assert(share * winners == winners * share) by (nonlinear_arith);
    lemma_fundamental_div_mod(total_pool, winners);
}

/// At every point in the life of a market, what it has paid out is within
/// what was staked in it, and its custody account holds the rest.
pub proof fn lemma_custody_covers_payouts(
    ctx: CreateBet,
    key: Address,
    title: String,
    bet_amount: u64,
    end_time: i64,
    instructions: Seq<Instruction>,
)
    requires
        ctx.sound_terms(title@, bet_amount),
    ensures
        ({
            let ledger = Ledger::opened(key, ctx.opened(title, bet_amount, end_time)).run(
                instructions,
            );
            &&& 0 <= ledger.paid_out() <= ledger.bet.total_pool()
            &&& ledger.custody == ledger.bet.total_pool() - ledger.paid_out()
            &&& 0 <= ledger.custody
        }),
{
    let opened = Ledger::opened(key, ctx.opened(title, bet_amount, end_time));
    lemma_opened_is_wf(ctx, key, title, bet_amount, end_time);
    lemma_run_keeps_wf(opened, instructions);
    lemma_payouts_within_pool(opened.run(instructions));
}

} // verus!
