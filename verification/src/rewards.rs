//! The accrual calculator: what a position has earned from each reward stream.
//!
//! A position earns its share of a stream's rate for every second since it was
//! last settled. The share is the position's part of the pool's collateral or,
//! where the pool has weighting dimensions, its part of each dimension's
//! weight. Every term is cut down to whole reward units before it is added to
//! the stream's total.

use crate::decimal::{
    checked_from_ratio, checked_mul, checked_product, checked_ratio, decimal_places, fractional,
    from_whole, percent, percent_atomics,
};
use crate::error::ContractError;
use crate::msg::{EstimatedReward, Staked, StakingWeight, UserStakingWeight};
use crate::state::State;
use vstd::prelude::*;

verus! {

/// A stream's rate is given per day and paid by the second.
pub const SECONDS_PER_DAY: u128 = 86_400;

/// Ten to the power `n`.
pub open spec fn ten_to(n: nat) -> nat
    decreases n,
{
    if n == 0 {
        1
    } else {
        10 * ten_to((n - 1) as nat)
    }
}

/// The seconds from the position's last settlement to `now`. There are none
/// to count where the position was never settled or `now` lies before the
/// settlement.
pub open spec fn elapsed_since(staked: Staked, now: u64) -> Option<u64> {
    match staked.last_settlement_time() {
        Some(since) => if since <= now {
            Some((now - since) as u64)
        } else {
            None
        },
        None => None,
    }
}

/// What a position earns per second, in atomic units, from a stream that
/// pays `rate` per day, where the position holds `staked` of the pool's
/// `total`. `None` where a step leaves the 128-bit range or `total` is zero.
pub open spec fn per_second_uniform(staked: u128, total: u128, rate: u128) -> Option<u128> {
    match (checked_ratio(staked, total), checked_ratio(rate, SECONDS_PER_DAY)) {
        (Some(share), Some(per_second)) => checked_product(share, per_second),
        _ => None,
    }
}

/// What a position earns per second, in atomic units, through one weighting
/// dimension: `percentage` percent of the stream's rate, shared by weight.
/// Only the low 64 bits of `percentage` count. `None` where a step leaves the
/// 128-bit range or `dimension_weight` is zero.
pub open spec fn per_second_weighted(
    weight: u128,
    dimension_weight: u128,
    rate: u128,
    percentage: u128,
) -> Option<u128> {
    match (checked_ratio(weight, dimension_weight), checked_ratio(rate, SECONDS_PER_DAY)) {
        (Some(share), Some(per_second)) => match checked_product(
            per_second,
            percent_atomics((percentage as u64) as nat) as u128,
        ) {
            Some(allocated) => checked_product(share, allocated),
            None => None,
        },
        _ => None,
    }
}

/// The whole units in a fixed-point value: its fraction is dropped.
pub open spec fn truncated(atomics: nat) -> nat {
    atomics / fractional()
}

/// The whole reward units earned in `elapsed` seconds at `per_second` atomic
/// units a second. The fraction of a unit is dropped.
pub open spec fn accrued(per_second: u128, elapsed: u64) -> Option<u128> {
    if per_second as nat * elapsed as nat <= u128::MAX {
        Some(truncated(per_second as nat * elapsed as nat) as u128)
    } else {
        None
    }
}

/// The weight recorded under `name` at or after index `from`: that of the
/// first such entry, and zero where there is none.
pub open spec fn weight_from(weights: Seq<UserStakingWeight>, name: Seq<char>, from: int) -> u128
    decreases weights.len() - from,
{
    if from < 0 || from >= weights.len() {
        0
    } else if weights[from].weight_trait_type@ == name {
        weights[from].amount
    } else {
        weight_from(weights, name, from + 1)
    }
}

/// The weight that a position contributes in the dimension `name`.
pub open spec fn weight_of(weights: Seq<UserStakingWeight>, name: Seq<char>) -> u128 {
    weight_from(weights, name, 0)
}

/// What one weighting dimension adds to a stream's estimate. A dimension that
/// nobody contributes to adds nothing.
pub open spec fn dimension_term(
    weights: Seq<UserStakingWeight>,
    dimension: StakingWeight,
    rate: u128,
    elapsed: u64,
) -> Option<u128> {
    if dimension.amount == 0 {
        Some(0)
    } else {
        match per_second_weighted(
            weight_of(weights, dimension.weight_trait_type@),
            dimension.amount,
            rate,
            dimension.weight_percentage,
        ) {
            Some(per_second) => accrued(per_second, elapsed),
            None => None,
        }
    }
}

/// The sum of the terms of the first `count` dimensions.
pub open spec fn weighted_sum(
    weights: Seq<UserStakingWeight>,
    dimensions: Seq<StakingWeight>,
    rate: u128,
    elapsed: u64,
    count: nat,
) -> Option<u128>
    decreases count,
{
    if count == 0 {
        Some(0)
    } else {
        match (
            weighted_sum(weights, dimensions, rate, elapsed, (count - 1) as nat),
            dimension_term(weights, dimensions[count - 1], rate, elapsed),
        ) {
            (Some(sum), Some(term)) => if sum + term <= u128::MAX {
                Some((sum + term) as u128)
            } else {
                None
            },
            _ => None,
        }
    }
}

/// What the position would be paid at `now` from a stream that pays `rate`
/// per day. `None` where the amount cannot be computed within the machine's
/// integers.
pub open spec fn stream_amount(staked: Staked, now: u64, state: State, rate: u128) -> Option<u128> {
    match state.staking_weights {
        None => if staked.staked_amount > 0 && state.total_staked_amount > 0 {
            match (
                elapsed_since(staked, now),
                per_second_uniform(staked.staked_amount, state.total_staked_amount, rate),
            ) {
                (Some(elapsed), Some(per_second)) => accrued(per_second, elapsed),
                _ => None,
            }
        } else {
            Some(0)
        },
        Some(dimensions) => if staked.staked_amount > 0 {
            match elapsed_since(staked, now) {
                Some(elapsed) => weighted_sum(
                    staked.weights(),
                    dimensions@,
                    rate,
                    elapsed,
                    dimensions@.len(),
                ),
                None => None,
            }
        } else {
            Some(0)
        },
    }
}

/// Whether every stream's amount can be computed.
pub open spec fn estimable(staked: Staked, now: u64, state: State) -> bool {
    forall|i: int|
        0 <= i < state.reward_contracts@.len() ==> (#[trigger] stream_amount(
            staked,
            now,
            state,
            state.reward_contracts@[i].rewards_per_day,
        )) is Some
}

/// The estimate for the stream at index `i`.
pub open spec fn estimate_at(staked: Staked, now: u64, state: State, i: int) -> EstimatedReward {
    EstimatedReward {
        estimated_rewards: stream_amount(
            staked,
            now,
            state,
            state.reward_contracts@[i].rewards_per_day,
        ).unwrap(),
        reward_contract_name: state.reward_contracts@[i].name,
    }
}

/// The estimates for all streams, in the pool's order.
pub open spec fn estimates(staked: Staked, now: u64, state: State) -> Seq<EstimatedReward> {
    Seq::new(state.reward_contracts@.len(), |i: int| estimate_at(staked, now, state, i))
}

/// Whether `answer` is what `get_estimated_rewards` owes for these inputs: the
/// estimates where every amount can be computed, and `Overflow` where one
/// cannot.
pub open spec fn answers_estimate(
    staked: Staked,
    current_time: u64,
    state: State,
    answer: Result<Vec<EstimatedReward>, ContractError>,
) -> bool {
    &&& answer is Ok <==> estimable(staked, current_time, state)
    &&& answer matches Ok(rewards) ==> rewards@ == estimates(staked, current_time, state)
    &&& answer matches Err(e) ==> e == ContractError::Overflow
}

/// Ten to the power `places`, for up to 18 places.
fn ten_power(places: u32) -> (r: u128)
    requires
        places <= 18,
    ensures
        r == ten_to(places as nat),
{
    let mut result: u128 = 1;
    let mut done: u32 = 0;
    proof {
        lemma_ten_to_18();
    }
    while done < places
        invariant
            done <= places <= 18,
            result == ten_to(done as nat),
            result <= ten_to(18),
        decreases places - done,
    {
        proof {
            lemma_ten_to_grows((done + 1) as nat, 18);
            lemma_ten_to_18();
        }
        result = result * 10;
        done = done + 1;
    }
    result
}

/// `ten_to` does not shrink as its argument grows.
proof fn lemma_ten_to_grows(low: nat, high: nat)
    requires
        low <= high,
    ensures
        ten_to(low) <= ten_to(high),
    decreases high,
{
    if low < high {
        lemma_ten_to_grows(low, (high - 1) as nat);
    }
}

/// The fixed-point value 1.0 has `10^18` atomic units.
proof fn lemma_ten_to_18()
    ensures
        ten_to(18) == fractional(),
{
    reveal_with_fuel(ten_to, 19);
}

/// Drops the fraction of a fixed-point value: the whole units in `atomics`.
/// The value is multiplied by the smallest fixed-point value, one atomic unit,
/// which moves its whole units down to where the atomic units are counted.
fn whole_units(atomics: u128) -> (r: u128)
    ensures
        r == truncated(atomics as nat),
{
    let places = decimal_places(atomics);
    let scale = ten_power(places);
    proof {
        lemma_ten_to_18();
    }
    let unit = checked_from_ratio(1, scale);
    assert(unit == Some(1u128));
    let whole = checked_mul(atomics, unit.unwrap());
    assert((atomics as nat) * 1 == atomics as nat);
    whole.unwrap()
}

/// The whole units earned in `elapsed` seconds at `per_second` atomic units.
pub(crate) fn accrue(per_second: u128, elapsed: u64) -> (r: Option<u128>)
    ensures
        r == accrued(per_second, elapsed),
{
    let seconds = from_whole(elapsed);
    assert(elapsed as nat * fractional() <= u128::MAX) by (nonlinear_arith)
        requires
            elapsed <= u64::MAX,
            fractional() == 1_000_000_000_000_000_000,
    ;
    let seconds = seconds.unwrap();
    assert((per_second as nat) * (seconds as nat) / fractional() == per_second as nat
        * elapsed as nat) by (nonlinear_arith)
        requires
            seconds == elapsed as nat * fractional(),
            fractional() == 1_000_000_000_000_000_000,
    ;
    match checked_mul(per_second, seconds) {
        Some(earned) => Some(whole_units(earned)),
        None => None,
    }
}

/// What a position earns per second from a stream by its part of the pool's
/// collateral.
pub(crate) fn uniform_rate(staked: u128, total: u128, rate: u128) -> (r: Option<u128>)
    ensures
        r == per_second_uniform(staked, total, rate),
{
    match (checked_from_ratio(staked, total), checked_from_ratio(rate, SECONDS_PER_DAY)) {
        (Some(share), Some(per_second)) => checked_mul(share, per_second),
        _ => None,
    }
}

/// What a position earns per second from a stream through one weighting
/// dimension.
fn weighted_rate(weight: u128, dimension_weight: u128, rate: u128, percentage: u128) -> (r: Option<
    u128,
>)
    ensures
        r == per_second_weighted(weight, dimension_weight, rate, percentage),
{
    match (
        checked_from_ratio(weight, dimension_weight),
        checked_from_ratio(rate, SECONDS_PER_DAY),
    ) {
        (Some(share), Some(per_second)) => {
            let part = percent(
                #[verifier::truncate]
                (percentage as u64),
            );
            match checked_mul(per_second, part) {
                Some(allocated) => checked_mul(share, allocated),
                None => None,
            }
        },
        _ => None,
    }
}

/// Looks up what a position contributes in the dimension `name`.
pub(crate) fn find_weight(weights: &Vec<UserStakingWeight>, name: &String) -> (r: u128)
    ensures
        r == weight_of(weights@, name@),
{
    let mut i: usize = 0;
    while i < weights.len()
        invariant
            i <= weights@.len(),
            weight_of(weights@, name@) == weight_from(weights@, name@, i as int),
        decreases weights@.len() - i,
    {
        if weights[i].weight_trait_type == *name {
            return weights[i].amount;
        }
        i = i + 1;
    }
    0
}

/// The seconds from the position's last settlement to `now`.
pub(crate) fn elapsed_seconds(staked: &Staked, now: u64) -> (r: Option<u64>)
    ensures
        r == elapsed_since(*staked, now),
{
    match staked.settlement_time() {
        Some(since) => now.checked_sub(since),
        None => None,
    }
}

/// What one weighting dimension adds to a stream's estimate.
fn dimension_amount(
    weights: &Vec<UserStakingWeight>,
    dimension: &StakingWeight,
    rate: u128,
    elapsed: u64,
) -> (r: Option<u128>)
    ensures
        r == dimension_term(weights@, *dimension, rate, elapsed),
{
    if dimension.amount == 0 {
        return Some(0);
    }
    let weight = find_weight(weights, &dimension.weight_trait_type);
    match weighted_rate(weight, dimension.amount, rate, dimension.weight_percentage) {
        Some(per_second) => accrue(per_second, elapsed),
        None => None,
    }
}

/// The sum of the terms of all dimensions.
fn weighted_amount(
    weights: &Vec<UserStakingWeight>,
    dimensions: &Vec<StakingWeight>,
    rate: u128,
    elapsed: u64,
) -> (r: Option<u128>)
    ensures
        r == weighted_sum(weights@, dimensions@, rate, elapsed, dimensions@.len()),
{
    let mut sum: u128 = 0;
    let mut i: usize = 0;
    while i < dimensions.len()
        invariant
            i <= dimensions@.len(),
            weighted_sum(weights@, dimensions@, rate, elapsed, i as nat) == Some(sum),
        decreases dimensions@.len() - i,
    {
        let term = dimension_amount(weights, &dimensions[i], rate, elapsed);
        let next = match term {
            Some(term) => sum.checked_add(term),
            None => None,
        };
        match next {
            Some(next) => {
                sum = next;
            },
            None => {
                proof {
                    lemma_weighted_sum_stays_undefined(
                        weights@,
                        dimensions@,
                        rate,
                        elapsed,
                        (i + 1) as nat,
                        dimensions@.len(),
                    );
                }
                return None;
            },
        }
        i = i + 1;
    }
    Some(sum)
}

/// Once a prefix of the dimensions has no sum, no longer prefix has one.
proof fn lemma_weighted_sum_stays_undefined(
    weights: Seq<UserStakingWeight>,
    dimensions: Seq<StakingWeight>,
    rate: u128,
    elapsed: u64,
    low: nat,
    high: nat,
)
    requires
        low <= high,
        weighted_sum(weights, dimensions, rate, elapsed, low) is None,
    ensures
        weighted_sum(weights, dimensions, rate, elapsed, high) is None,
    decreases high,
{
    if low < high {
        lemma_weighted_sum_stays_undefined(
            weights,
            dimensions,
            rate,
            elapsed,
            low,
            (high - 1) as nat,
        );
    }
}

/// What the position would be paid at `now` from one stream.
fn stream_estimate(staked: &Staked, now: u64, state: &State, rate: u128) -> (r: Option<u128>)
    ensures
        r == stream_amount(*staked, now, *state, rate),
{
    match &state.staking_weights {
        None => {
            if staked.staked_amount > 0 && state.total_staked_amount > 0 {
                match (
                    elapsed_seconds(staked, now),
                    uniform_rate(staked.staked_amount, state.total_staked_amount, rate),
                ) {
                    (Some(elapsed), Some(per_second)) => accrue(per_second, elapsed),
                    _ => None,
                }
            } else {
                Some(0)
            }
        },
        Some(dimensions) => {
            if staked.staked_amount > 0 {
                match elapsed_seconds(staked, now) {
                    Some(elapsed) => match &staked.staking_weights {
                        Some(weights) => weighted_amount(weights, dimensions, rate, elapsed),
                        None => {
                            let weights: Vec<UserStakingWeight> = Vec::new();
                            weighted_amount(&weights, dimensions, rate, elapsed)
                        },
                    },
                    None => None,
                }
            } else {
                Some(0)
            }
        },
    }
}

/// Estimates what the position would be paid at `current_time` from every
/// reward stream of the pool, in the pool's order.
///
/// Without weighting dimensions a position earns by its part of the pool's
/// collateral: `staked_amount / total_staked_amount` of the stream's rate per
/// second, for every second since its last settlement. With weighting
/// dimensions each dimension hands out its percentage of the rate by weight,
/// and the dimensions' amounts are added up. A position that holds nothing
/// earns nothing. Each amount is cut down to whole units.
///
/// Fails with `Overflow` where an amount cannot be computed: `current_time`
/// lies before the position's last settlement, or a step of the arithmetic
/// leaves the 128-bit range.
pub fn get_estimated_rewards(staked: &Staked, current_time: &u64, state: &State) -> (r: Result<
    Vec<EstimatedReward>,
    ContractError,
>)
    ensures
        answers_estimate(*staked, *current_time, *state, r),
{
    let mut rewards: Vec<EstimatedReward> = Vec::new();
    let mut i: usize = 0;
    while i < state.reward_contracts.len()
        invariant
            i <= state.reward_contracts@.len(),
            rewards@.len() == i,
            forall|j: int|
                0 <= j < i ==> (#[trigger] stream_amount(
                    *staked,
                    *current_time,
                    *state,
                    state.reward_contracts@[j].rewards_per_day,
                )) is Some,
            forall|j: int|
                0 <= j < i ==> rewards@[j] == estimate_at(*staked, *current_time, *state, j),
        decreases state.reward_contracts@.len() - i,
    {
        let stream = &state.reward_contracts[i];
        match stream_estimate(staked, *current_time, state, stream.rewards_per_day) {
            Some(amount) => {
                rewards.push(
                    EstimatedReward {
                        estimated_rewards: amount,
                        reward_contract_name: stream.name.clone(),
                    },
                );
            },
            None => {
                return Err(ContractError::Overflow);
            },
        }
        i = i + 1;
    }
    assert(rewards@ =~= estimates(*staked, *current_time, *state));
    Ok(rewards)
}

} // verus!
