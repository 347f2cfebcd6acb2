//! Sums over the positions of a market.

use crate::payout::payout;
use crate::state::UserBet;
use vstd::prelude::*;

verus! {

/// The sum of `weight` over the positions.
pub open spec fn sum_by(positions: Seq<UserBet>, weight: spec_fn(UserBet) -> int) -> int
    decreases positions.len(),
{
    if positions.len() == 0 {
        0
    } else {
        sum_by(positions.drop_last(), weight) + weight(positions.last())
    }
}

/// What a position adds to the stakes on `direction`.
pub open spec fn stake_on(position: UserBet, direction: bool) -> int {
    if position.direction == direction {
        position.amount as int
    } else {
        0
    }
}

/// What a position adds to the number of positions on `direction`.
pub open spec fn backs(position: UserBet, direction: bool) -> int {
    if position.direction == direction {
        1
    } else {
        0
    }
}

/// What a position adds to the stakes that have been claimed on.
pub open spec fn claimed_stake_of(position: UserBet) -> int {
    if position.claimed {
        position.amount as int
    } else {
        0
    }
}

/// What a position has been paid, given the pool and the winning pool.
pub open spec fn paid_to(position: UserBet, total_pool: int, winning_pool: int) -> int {
    if position.claimed {
        payout(total_pool, position.amount as int, winning_pool)
    } else {
        0
    }
}

/// The sum of the stakes of the positions on `direction`.
pub open spec fn staked(positions: Seq<UserBet>, direction: bool) -> int {
    sum_by(positions, |p: UserBet| stake_on(p, direction))
}

/// The number of positions on `direction`.
pub open spec fn backers(positions: Seq<UserBet>, direction: bool) -> int {
    sum_by(positions, |p: UserBet| backs(p, direction))
}

/// The sum of the stakes of the positions that have claimed.
pub open spec fn claimed_stake(positions: Seq<UserBet>) -> int {
    sum_by(positions, |p: UserBet| claimed_stake_of(p))
}

/// The sum of what the positions that have claimed were paid, given the
/// pool and the winning pool.
pub open spec fn paid(positions: Seq<UserBet>, total_pool: int, winning_pool: int) -> int {
    sum_by(positions, |p: UserBet| paid_to(p, total_pool, winning_pool))
}

/// A new position adds its own weight to the sum.
pub proof fn lemma_sum_push(
    positions: Seq<UserBet>,
    position: UserBet,
    weight: spec_fn(UserBet) -> int,
)
    ensures
        sum_by(positions.push(position), weight) == sum_by(positions, weight) + weight(position),
{
    assert(positions.push(position).drop_last() =~= positions);
}

/// Replacing a position replaces its weight in the sum.
pub proof fn lemma_sum_update(
    positions: Seq<UserBet>,
    i: int,
    position: UserBet,
    weight: spec_fn(UserBet) -> int,
)
    requires
        0 <= i < positions.len(),
    ensures
        sum_by(positions.update(i, position), weight) == sum_by(positions, weight) - weight(
            positions[i],
        ) + weight(position),
    decreases positions.len(),
{
    let updated = positions.update(i, position);
    if i == positions.len() - 1 {
        assert(updated.drop_last() =~= positions.drop_last());
    } else {
        lemma_sum_update(positions.drop_last(), i, position, weight);
        assert(updated.drop_last() =~= positions.drop_last().update(i, position));
    }
}

/// A weight that is nowhere greater than another sums to no more.
pub proof fn lemma_sum_le(
    positions: Seq<UserBet>,
    lesser: spec_fn(UserBet) -> int,
    greater: spec_fn(UserBet) -> int,
)
    requires
        forall|i: int|
            0 <= i < positions.len() ==> lesser(#[trigger] positions[i]) <= greater(
                positions[i],
            ),
    ensures
        sum_by(positions, lesser) <= sum_by(positions, greater),
    decreases positions.len(),
{
    if positions.len() > 0 {
        let rest = positions.drop_last();
        assert forall|i: int| 0 <= i < rest.len() implies lesser(#[trigger] rest[i]) <= greater(
            rest[i],
        ) by {
            assert(rest[i] == positions[i]);
        }
        lemma_sum_le(rest, lesser, greater);
        assert(positions.last() == positions[positions.len() - 1]);
    }
}

/// Where every position's weight, taken `scale` times, stays within `bound`
/// times another weight, so do the sums.
pub proof fn lemma_sum_scaled_le(
    positions: Seq<UserBet>,
    lesser: spec_fn(UserBet) -> int,
    scale: int,
    bound: int,
    greater: spec_fn(UserBet) -> int,
)
    requires
        forall|i: int|
            0 <= i < positions.len() ==> lesser(#[trigger] positions[i]) * scale <= bound * greater(
                positions[i],
            ),
    ensures
        sum_by(positions, lesser) * scale <= bound * sum_by(positions, greater),
    decreases positions.len(),
{
    if positions.len() > 0 {
        let rest = positions.drop_last();
        let last = positions.last();
        assert forall|i: int| 0 <= i < rest.len() implies lesser(#[trigger] rest[i]) * scale
            <= bound * greater(rest[i]) by {
            assert(rest[i] == positions[i]);
        }
        lemma_sum_scaled_le(rest, lesser, scale, bound, greater);
        assert(last == positions[positions.len() - 1]);
        let a = sum_by(rest, lesser);
        let b = lesser(last);
        let c = sum_by(rest, greater);
        let d = greater(last);
        assert((a + b) * scale <= bound * (c + d)) by (nonlinear_arith)
            requires
                a * scale <= bound * c,
                b * scale <= bound * d,
        ;
    }
}

/// Where every position's weight is `factor` times another weight, so are
/// the sums.
pub proof fn lemma_sum_scaled(
    positions: Seq<UserBet>,
    weight: spec_fn(UserBet) -> int,
    factor: int,
    unit: spec_fn(UserBet) -> int,
)
    requires
        forall|i: int|
            0 <= i < positions.len() ==> weight(#[trigger] positions[i]) == factor * unit(
                positions[i],
            ),
    ensures
        sum_by(positions, weight) == factor * sum_by(positions, unit),
    decreases positions.len(),
{
    if positions.len() > 0 {
        let rest = positions.drop_last();
        let last = positions.last();
        assert forall|i: int| 0 <= i < rest.len() implies weight(#[trigger] rest[i]) == factor
            * unit(rest[i]) by {
            assert(rest[i] == positions[i]);
        }
        lemma_sum_scaled(rest, weight, factor, unit);
        assert(last == positions[positions.len() - 1]);
        let a = sum_by(rest, unit);
        let b = unit(last);
        assert(factor * a + factor * b == factor * (a + b)) by (nonlinear_arith);
    } else {
        assert(factor * 0 == 0) by (nonlinear_arith);
    }
}

/// A weight that is zero on every position sums to zero.
pub proof fn lemma_sum_vanishes(positions: Seq<UserBet>, weight: spec_fn(UserBet) -> int)
    requires
        forall|i: int| 0 <= i < positions.len() ==> weight(#[trigger] positions[i]) == 0,
    ensures
        sum_by(positions, weight) == 0,
    decreases positions.len(),
{
    if positions.len() > 0 {
        let rest = positions.drop_last();
        assert forall|i: int| 0 <= i < rest.len() implies weight(#[trigger] rest[i]) == 0 by {
            assert(rest[i] == positions[i]);
        }
        lemma_sum_vanishes(rest, weight);
        assert(positions.last() == positions[positions.len() - 1]);
    }
}

/// Where no weight is negative, neither is the sum.
pub proof fn lemma_sum_nonnegative(positions: Seq<UserBet>, weight: spec_fn(UserBet) -> int)
    requires
        forall|j: int| 0 <= j < positions.len() ==> weight(#[trigger] positions[j]) >= 0,
    ensures
        sum_by(positions, weight) >= 0,
    decreases positions.len(),
{
    if positions.len() > 0 {
        let rest = positions.drop_last();
        assert forall|j: int| 0 <= j < rest.len() implies weight(#[trigger] rest[j]) >= 0 by {
            assert(rest[j] == positions[j]);
        }
        lemma_sum_nonnegative(rest, weight);
        assert(positions.last() == positions[positions.len() - 1]);
    }
}

/// Where no weight is negative, no position weighs more than the sum.
pub proof fn lemma_sum_covers(positions: Seq<UserBet>, weight: spec_fn(UserBet) -> int, i: int)
    requires
        0 <= i < positions.len(),
        forall|j: int| 0 <= j < positions.len() ==> weight(#[trigger] positions[j]) >= 0,
    ensures
        0 <= weight(positions[i]) <= sum_by(positions, weight),
    decreases positions.len(),
{
    let rest = positions.drop_last();
    let end = positions.len() - 1;
    assert(positions.last() == positions[end]);
    assert forall|j: int| 0 <= j < rest.len() implies weight(#[trigger] rest[j]) >= 0 by {
        assert(rest[j] == positions[j]);
    }
    if i == end {
        lemma_sum_nonnegative(rest, weight);
    } else {
        assert(rest[i] == positions[i]);
        lemma_sum_covers(rest, weight, i);
    }
}

} // verus!
