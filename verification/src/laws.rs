//! What holds of a pool whatever is done with it.
//!
//! The pool's books are kept in two places: the pool's own aggregates and the
//! positions of its participants. The laws below say that every operation
//! keeps the two in step, that no reserve is ever overdrawn, that settlement
//! only moves forward in time, and that an empty position earns nothing.

use crate::contract::{claim_outcome, claimed, nothing_accrued};
use crate::deposit::{contribution, deposit_outcome, deposited};
use crate::error::ContractError;
use crate::msg::{EstimatedReward, Response, Staked, StakingWeight, UserStakingWeight};
use crate::rewards::{
    answers_estimate, estimable, estimates, stream_amount, weight_from, weight_of,
};
use crate::settle::{claim_payouts, covered, paid_out, settlement_payouts};
use crate::state::State;
use crate::withdraw::{
    collateral_left, eject_outcome, quantity_withdrawn, releasable, released, taken_out, vacated,
    withdraw_no_reward_outcome, withdraw_outcome, withdraw_quantity_outcome, withdrawn,
};
use vstd::prelude::*;

verus! {

/// The collateral that the positions hold together.
pub open spec fn total_staked(positions: Seq<Staked>) -> nat
    decreases positions.len(),
{
    if positions.len() == 0 {
        0
    } else {
        total_staked(positions.drop_last()) + positions.last().staked_amount as nat
    }
}

/// Whether the pool's total is the collateral that the positions hold
/// together.
pub open spec fn conserved(state: State, positions: Seq<Staked>) -> bool {
    state.total_staked_amount == total_staked(positions)
}

/// Whether the position counts exactly the items that it holds.
pub open spec fn counts_items(staked: Staked, staked_nfts: Seq<String>) -> bool {
    staked.staked_amount == staked_nfts.len()
}

/// Replacing one position changes the collateral held together by the
/// difference between the two.
pub proof fn lemma_total_staked_update(positions: Seq<Staked>, participant: int, updated: Staked)
    requires
        0 <= participant < positions.len(),
    ensures
        total_staked(positions.update(participant, updated)) == total_staked(positions)
            - positions[participant].staked_amount + updated.staked_amount,
    decreases positions.len(),
{
    let after = positions.update(participant, updated);
    if participant == positions.len() - 1 {
        assert(after.drop_last() =~= positions.drop_last());
    } else {
        lemma_total_staked_update(positions.drop_last(), participant, updated);
        assert(after.drop_last() =~= positions.drop_last().update(participant, updated));
    }
}

/// Conservation under deposit: where the pool's total is the sum of the
/// positions before a deposit, it is so after it. A position that counted its
/// items still does.
pub proof fn deposit_conserves(
    state: State,
    positions: Seq<Staked>,
    participant: int,
    staked_nfts: Seq<String>,
    current_time: u64,
    recipient: String,
    token_ids: Seq<String>,
    added: Seq<u128>,
    payouts: Seq<u128>,
    state_after: State,
    staked_after: Staked,
    staked_nfts_after: Seq<String>,
    response: Response,
)
    requires
        0 <= participant < positions.len(),
        conserved(state, positions),
        deposit_outcome(state, positions[participant], current_time, token_ids.len(), added)
            == Ok::<Seq<u128>, ContractError>(payouts),
        deposited(
            state,
            positions[participant],
            staked_nfts,
            current_time,
            recipient,
            token_ids,
            added,
            payouts,
            state_after,
            staked_after,
            staked_nfts_after,
            response,
        ),
    ensures
        conserved(state_after, positions.update(participant, staked_after)),
        counts_items(positions[participant], staked_nfts) ==> counts_items(
            staked_after,
            staked_nfts_after,
        ),
{
    lemma_total_staked_update(positions, participant, staked_after);
}

/// Conservation under full withdrawal: where the pool's total is the sum of
/// the positions before, it is so after.
pub proof fn withdraw_conserves(
    state: State,
    positions: Seq<Staked>,
    participant: int,
    staked_nfts: Seq<String>,
    current_time: u64,
    recipient: String,
    payouts: Seq<u128>,
    state_after: State,
    staked_after: Staked,
    staked_nfts_after: Seq<String>,
    response: Response,
)
    requires
        0 <= participant < positions.len(),
        conserved(state, positions),
        withdraw_outcome(state, positions[participant], staked_nfts, current_time) == Ok::<
            Seq<u128>,
            ContractError,
        >(payouts),
        withdrawn(
            state,
            positions[participant],
            staked_nfts,
            current_time,
            recipient,
            payouts,
            state_after,
            staked_after,
            staked_nfts_after,
            response,
        ),
    ensures
        conserved(state_after, positions.update(participant, staked_after)),
        counts_items(staked_after, staked_nfts_after),
{
    lemma_total_staked_update(positions, participant, staked_after);
}

/// Conservation under withdrawal by quantity: where the position counts its
/// items and the pool's total is the sum of the positions before, both hold
/// after.
pub proof fn quantity_withdraw_conserves(
    state: State,
    positions: Seq<Staked>,
    participant: int,
    staked_nfts: Seq<String>,
    current_time: u64,
    recipient: String,
    quantity: u128,
    payouts: Seq<u128>,
    state_after: State,
    staked_after: Staked,
    staked_nfts_after: Seq<String>,
    response: Response,
)
    requires
        0 <= participant < positions.len(),
        conserved(state, positions),
        counts_items(positions[participant], staked_nfts),
        withdraw_quantity_outcome(
            state,
            positions[participant],
            staked_nfts,
            current_time,
            quantity,
        ) == Ok::<Seq<u128>, ContractError>(payouts),
        quantity_withdrawn(
            state,
            positions[participant],
            staked_nfts,
            current_time,
            recipient,
            quantity,
            payouts,
            state_after,
            staked_after,
            staked_nfts_after,
            response,
        ),
    ensures
        conserved(state_after, positions.update(participant, staked_after)),
        counts_items(staked_after, staked_nfts_after),
{
    lemma_total_staked_update(positions, participant, staked_after);
}

/// Conservation under withdrawal without rewards: where the pool's total is
/// the sum of the positions before, it is so after.
pub proof fn withdraw_no_reward_conserves(
    state: State,
    positions: Seq<Staked>,
    participant: int,
    staked_nfts: Seq<String>,
    current_time: u64,
    recipient: String,
    state_after: State,
    staked_after: Staked,
    staked_nfts_after: Seq<String>,
    response: Response,
)
    requires
        0 <= participant < positions.len(),
        conserved(state, positions),
        withdraw_no_reward_outcome(state, positions[participant], staked_nfts) is Ok,
        taken_out(
            state,
            positions[participant],
            staked_nfts,
            current_time,
            recipient,
            positions[participant].staked_amount,
            state_after,
            staked_after,
            staked_nfts_after,
            response,
        ),
    ensures
        conserved(state_after, positions.update(participant, staked_after)),
        counts_items(staked_after, staked_nfts_after),
{
    lemma_total_staked_update(positions, participant, staked_after);
}

/// Conservation under ejection: where the position counts its items and the
/// pool's total is the sum of the positions before, both hold after.
pub proof fn eject_conserves(
    state: State,
    positions: Seq<Staked>,
    participant: int,
    staked_nfts: Seq<String>,
    current_time: u64,
    sender: String,
    recipient: String,
    state_after: State,
    staked_after: Staked,
    staked_nfts_after: Seq<String>,
    response: Response,
)
    requires
        0 <= participant < positions.len(),
        conserved(state, positions),
        counts_items(positions[participant], staked_nfts),
        eject_outcome(state, positions[participant], staked_nfts, sender) is Ok,
        taken_out(
            state,
            positions[participant],
            staked_nfts,
            current_time,
            recipient,
            staked_nfts.len() as u128,
            state_after,
            staked_after,
            staked_nfts_after,
            response,
        ),
    ensures
        conserved(state_after, positions.update(participant, staked_after)),
        counts_items(staked_after, staked_nfts_after),
{
    lemma_total_staked_update(positions, participant, staked_after);
}

/// Conservation under claim: a claim moves no collateral.
pub proof fn claim_conserves(
    state: State,
    positions: Seq<Staked>,
    participant: int,
    current_time: u64,
    recipient: String,
    payouts: Seq<u128>,
    state_after: State,
    staked_after: Staked,
    response: Response,
)
    requires
        0 <= participant < positions.len(),
        conserved(state, positions),
        claimed(
            state,
            positions[participant],
            current_time,
            recipient,
            payouts,
            state_after,
            staked_after,
            response,
        ),
    ensures
        conserved(state_after, positions.update(participant, staked_after)),
        staked_after.staked_amount == positions[participant].staked_amount,
{
    lemma_total_staked_update(positions, participant, staked_after);
}

/// The weight that the positions together contribute in the dimension of the
/// trait `name`.
pub open spec fn contributed(positions: Seq<Staked>, name: Seq<char>) -> nat
    decreases positions.len(),
{
    if positions.len() == 0 {
        0
    } else {
        contributed(positions.drop_last(), name) + weight_of(positions.last().weights(), name)
            as nat
    }
}

/// Whether every weighting dimension of the pool holds exactly what the
/// positions together contribute to it.
pub open spec fn weights_balanced(state: State, positions: Seq<Staked>) -> bool {
    forall|k: int|
        0 <= k < state.dimensions().len() ==> (#[trigger] state.dimensions()[k]).amount
            == contributed(positions, state.dimensions()[k].weight_trait_type@)
}

/// Whether no two of the dimensions go by the same trait.
pub open spec fn distinct_dimensions(dimensions: Seq<StakingWeight>) -> bool {
    forall|j: int, k: int|
        0 <= j < k < dimensions.len() ==> (#[trigger] dimensions[j]).weight_trait_type@ != (
        #[trigger] dimensions[k]).weight_trait_type@
}

/// Replacing one position changes what the positions contribute together by
/// the difference between the two.
pub proof fn lemma_contributed_update(
    positions: Seq<Staked>,
    participant: int,
    updated: Staked,
    name: Seq<char>,
)
    requires
        0 <= participant < positions.len(),
    ensures
        contributed(positions.update(participant, updated), name) == contributed(positions, name)
            - weight_of(positions[participant].weights(), name) + weight_of(
            updated.weights(),
            name,
        ),
    decreases positions.len(),
{
    let after = positions.update(participant, updated);
    if participant == positions.len() - 1 {
        assert(after.drop_last() =~= positions.drop_last());
    } else {
        lemma_contributed_update(positions.drop_last(), participant, updated, name);
        assert(after.drop_last() =~= positions.drop_last().update(participant, updated));
    }
}

/// In a record whose entries go by distinct traits up to index `entry`, the
/// weight looked up under that entry's trait is the entry's own.
proof fn lemma_weight_of_entry(weights: Seq<UserStakingWeight>, entry: int, from: int)
    requires
        0 <= from <= entry < weights.len(),
        forall|j: int|
            0 <= j < entry ==> (#[trigger] weights[j]).weight_trait_type@
                != weights[entry].weight_trait_type@,
    ensures
        weight_from(weights, weights[entry].weight_trait_type@, from) == weights[entry].amount,
    decreases entry - from,
{
    if from < entry {
        lemma_weight_of_entry(weights, entry, from + 1);
    }
}

/// Weighted aggregate consistency under deposit: in a pool whose dimensions
/// go by distinct traits, where every dimension holds what the positions
/// contribute before a deposit, it does so after it.
pub proof fn deposit_balances_weights(
    state: State,
    positions: Seq<Staked>,
    participant: int,
    staked_nfts: Seq<String>,
    current_time: u64,
    recipient: String,
    token_ids: Seq<String>,
    added: Seq<u128>,
    payouts: Seq<u128>,
    state_after: State,
    staked_after: Staked,
    staked_nfts_after: Seq<String>,
    response: Response,
)
    requires
        0 <= participant < positions.len(),
        weights_balanced(state, positions),
        distinct_dimensions(state.dimensions()),
        deposit_outcome(state, positions[participant], current_time, token_ids.len(), added)
            == Ok::<Seq<u128>, ContractError>(payouts),
        deposited(
            state,
            positions[participant],
            staked_nfts,
            current_time,
            recipient,
            token_ids,
            added,
            payouts,
            state_after,
            staked_after,
            staked_nfts_after,
            response,
        ),
    ensures
        weights_balanced(state_after, positions.update(participant, staked_after)),
        distinct_dimensions(state_after.dimensions()),
{
    let dimensions = state.dimensions();
    let weights = positions[participant].weights();
    let after = positions.update(participant, staked_after);
    if state.staking_weights is Some {
        let entries = staked_after.weights();
        assert(entries == Seq::new(
            dimensions.len(),
            |k: int| contribution(weights, dimensions[k], added[k]),
        ));
        assert forall|k: int| 0 <= k < state_after.dimensions().len() implies (
        #[trigger] state_after.dimensions()[k]).amount == contributed(
            after,
            state_after.dimensions()[k].weight_trait_type@,
        ) by {
            let name = dimensions[k].weight_trait_type@;
            assert(entries[k] == contribution(weights, dimensions[k], added[k]));
            assert forall|j: int| 0 <= j < k implies (#[trigger] entries[j]).weight_trait_type@
                != entries[k].weight_trait_type@ by {
                assert(entries[j] == contribution(weights, dimensions[j], added[j]));
            }
            lemma_weight_of_entry(entries, k, 0);
            lemma_contributed_update(positions, participant, staked_after, name);
        }
    }
}

/// Weighted aggregate consistency when collateral leaves: where every
/// dimension holds what the positions contribute, and a position's weights
/// are taken out of the pool while the position is left without weights,
/// every dimension still holds what the positions contribute.
pub proof fn release_balances_weights(
    state: State,
    positions: Seq<Staked>,
    participant: int,
    amount: u128,
    state_after: State,
    staked_after: Staked,
)
    requires
        0 <= participant < positions.len(),
        weights_balanced(state, positions),
        releasable(state.staking_weights, positions[participant].weights()),
        collateral_left(state, positions[participant].weights(), amount, state_after),
        staked_after.weights().len() == 0,
    ensures
        weights_balanced(state_after, positions.update(participant, staked_after)),
{
    let dimensions = state.dimensions();
    let after = positions.update(participant, staked_after);
    assert forall|k: int| 0 <= k < state_after.dimensions().len() implies (
    #[trigger] state_after.dimensions()[k]).amount == contributed(
        after,
        state_after.dimensions()[k].weight_trait_type@,
    ) by {
        let name = dimensions[k].weight_trait_type@;
        assert(state_after.dimensions()[k] == released(
            dimensions[k],
            positions[participant].weights(),
        ));
        lemma_contributed_update(positions, participant, staked_after, name);
    }
}

/// Weighted aggregate consistency under full withdrawal.
pub proof fn withdraw_balances_weights(
    state: State,
    positions: Seq<Staked>,
    participant: int,
    staked_nfts: Seq<String>,
    current_time: u64,
    recipient: String,
    payouts: Seq<u128>,
    state_after: State,
    staked_after: Staked,
    staked_nfts_after: Seq<String>,
    response: Response,
)
    requires
        0 <= participant < positions.len(),
        weights_balanced(state, positions),
        withdraw_outcome(state, positions[participant], staked_nfts, current_time) == Ok::<
            Seq<u128>,
            ContractError,
        >(payouts),
        withdrawn(
            state,
            positions[participant],
            staked_nfts,
            current_time,
            recipient,
            payouts,
            state_after,
            staked_after,
            staked_nfts_after,
            response,
        ),
    ensures
        weights_balanced(state_after, positions.update(participant, staked_after)),
{
    release_balances_weights(
        state,
        positions,
        participant,
        positions[participant].staked_amount,
        state_after,
        staked_after,
    );
}

/// Weighted aggregate consistency under withdrawal by quantity.
pub proof fn quantity_withdraw_balances_weights(
    state: State,
    positions: Seq<Staked>,
    participant: int,
    staked_nfts: Seq<String>,
    current_time: u64,
    recipient: String,
    quantity: u128,
    payouts: Seq<u128>,
    state_after: State,
    staked_after: Staked,
    staked_nfts_after: Seq<String>,
    response: Response,
)
    requires
        0 <= participant < positions.len(),
        weights_balanced(state, positions),
        withdraw_quantity_outcome(
            state,
            positions[participant],
            staked_nfts,
            current_time,
            quantity,
        ) == Ok::<Seq<u128>, ContractError>(payouts),
        quantity_withdrawn(
            state,
            positions[participant],
            staked_nfts,
            current_time,
            recipient,
            quantity,
            payouts,
            state_after,
            staked_after,
            staked_nfts_after,
            response,
        ),
    ensures
        weights_balanced(state_after, positions.update(participant, staked_after)),
{
    release_balances_weights(state, positions, participant, quantity, state_after, staked_after);
}

/// Weighted aggregate consistency when collateral is taken out without
/// rewards, by the participant or by the owner.
pub proof fn take_out_balances_weights(
    state: State,
    positions: Seq<Staked>,
    participant: int,
    staked_nfts: Seq<String>,
    current_time: u64,
    recipient: String,
    amount: u128,
    state_after: State,
    staked_after: Staked,
    staked_nfts_after: Seq<String>,
    response: Response,
)
    requires
        0 <= participant < positions.len(),
        weights_balanced(state, positions),
        releasable(state.staking_weights, positions[participant].weights()),
        taken_out(
            state,
            positions[participant],
            staked_nfts,
            current_time,
            recipient,
            amount,
            state_after,
            staked_after,
            staked_nfts_after,
            response,
        ),
    ensures
        weights_balanced(state_after, positions.update(participant, staked_after)),
{
    release_balances_weights(state, positions, participant, amount, state_after, staked_after);
}

/// Reserve non-negativity under claim: a claim that is paid takes from no
/// reserve more than it holds, and a claim on a reserve that holds too little
/// is refused.
pub proof fn claim_never_overdraws(state: State, staked: Staked, current_time: u64)
    ensures
        claim_outcome(state, staked, current_time) matches Ok(payouts) ==> covered(
            state.reward_contracts@,
            payouts,
        ),
        claim_outcome(state, staked, current_time) matches Ok(payouts) ==> forall|i: int|
            0 <= i < payouts.len() ==> (#[trigger] paid_out(
                state.reward_contracts@,
                payouts,
            )[i]).total_rewards + payouts[i] == state.reward_contracts@[i].total_rewards,
        staked.staked_amount > 0 && estimable(staked, current_time, state) && !nothing_accrued(
            estimates(staked, current_time, state),
        ) && !covered(
            state.reward_contracts@,
            claim_payouts(estimates(staked, current_time, state)),
        ) ==> claim_outcome(state, staked, current_time) == Err::<Seq<u128>, ContractError>(
            ContractError::InsufficientReserve,
        ),
{
}

/// Reserve non-negativity on the way: what a deposit or a withdrawal pays on
/// the way is less than the reserve it comes from.
pub proof fn settlement_never_overdraws(state: State, rewards: Seq<EstimatedReward>)
    ensures
        covered(state.reward_contracts@, settlement_payouts(state.reward_contracts@, rewards)),
        forall|i: int|
            0 <= i < state.reward_contracts@.len() ==> (#[trigger] paid_out(
                state.reward_contracts@,
                settlement_payouts(state.reward_contracts@, rewards),
            )[i]).total_rewards + settlement_payouts(state.reward_contracts@, rewards)[i]
                == state.reward_contracts@[i].total_rewards,
{
}

/// Estimates repeat: two estimates for the same position, pool and moment
/// agree, in whether they succeed and in every amount.
pub proof fn estimate_repeats(
    staked: Staked,
    current_time: u64,
    state: State,
    first: Result<Vec<EstimatedReward>, ContractError>,
    second: Result<Vec<EstimatedReward>, ContractError>,
)
    requires
        answers_estimate(staked, current_time, state, first),
        answers_estimate(staked, current_time, state, second),
    ensures
        first is Ok <==> second is Ok,
        first is Ok ==> first->Ok_0@ == second->Ok_0@,
        first is Err ==> first->Err_0 == second->Err_0,
{
}

/// Whether the moment `current_time` does not lie before the position's last
/// settlement.
pub open spec fn clock_ahead(staked: Staked, current_time: u64) -> bool {
    staked.last_settlement_time() matches Some(settled) ==> settled <= current_time
}

/// Whether the position `after` is settled no earlier than `before` was.
pub open spec fn settles_forward(before: Staked, after: Staked) -> bool {
    before.last_settlement_time() matches Some(earlier) ==> (
    after.last_settlement_time() matches Some(later) ==> earlier <= later)
}

/// Monotonic settlement under deposit: while the clock does not run
/// backwards, a deposit settles the position at the moment of the deposit.
pub proof fn deposit_settles_forward(
    state: State,
    staked: Staked,
    staked_nfts: Seq<String>,
    current_time: u64,
    recipient: String,
    token_ids: Seq<String>,
    added: Seq<u128>,
    payouts: Seq<u128>,
    state_after: State,
    staked_after: Staked,
    staked_nfts_after: Seq<String>,
    response: Response,
)
    requires
        clock_ahead(staked, current_time),
        deposited(
            state,
            staked,
            staked_nfts,
            current_time,
            recipient,
            token_ids,
            added,
            payouts,
            state_after,
            staked_after,
            staked_nfts_after,
            response,
        ),
    ensures
        staked_after.last_settlement_time() == Some(current_time),
        settles_forward(staked, staked_after),
{
}

/// Monotonic settlement under claim: while the clock does not run backwards,
/// a claim settles the position at the moment of the claim.
pub proof fn claim_settles_forward(
    state: State,
    staked: Staked,
    current_time: u64,
    recipient: String,
    payouts: Seq<u128>,
    state_after: State,
    staked_after: Staked,
    response: Response,
)
    requires
        clock_ahead(staked, current_time),
        claimed(
            state,
            staked,
            current_time,
            recipient,
            payouts,
            state_after,
            staked_after,
            response,
        ),
    ensures
        staked_after.last_settlement_time() == Some(current_time),
        settles_forward(staked, staked_after),
{
}

/// Monotonic settlement under withdrawal by quantity: while the clock does
/// not run backwards, a position that keeps items is settled at the moment of
/// the withdrawal, and one that keeps none has no settlement any more.
pub proof fn quantity_withdraw_settles_forward(
    state: State,
    staked: Staked,
    staked_nfts: Seq<String>,
    current_time: u64,
    recipient: String,
    quantity: u128,
    payouts: Seq<u128>,
    state_after: State,
    staked_after: Staked,
    staked_nfts_after: Seq<String>,
    response: Response,
)
    requires
        quantity <= staked_nfts.len() <= usize::MAX,
        clock_ahead(staked, current_time),
        quantity_withdrawn(
            state,
            staked,
            staked_nfts,
            current_time,
            recipient,
            quantity,
            payouts,
            state_after,
            staked_after,
            staked_nfts_after,
            response,
        ),
    ensures
        staked_after.last_settlement_time() == (if quantity < staked_nfts.len() {
            Some(current_time)
        } else {
            None
        }),
        settles_forward(staked, staked_after),
{
}

/// Monotonic settlement when a position is emptied: an emptied position has
/// no settlement any more, so none that lies earlier.
pub proof fn emptied_settles_forward(
    staked: Staked,
    staked_after: Staked,
    staked_nfts_after: Seq<String>,
)
    requires
        vacated(staked_after, staked_nfts_after),
    ensures
        staked_after.last_settlement_time() is None,
        settles_forward(staked, staked_after),
        staked_after.well_formed(),
{
}

/// A position that holds nothing earns nothing: its estimate is zero for
/// every stream, at every moment and whatever the pool looks like.
pub proof fn empty_position_earns_nothing(staked: Staked, current_time: u64, state: State)
    requires
        staked.staked_amount == 0,
    ensures
        estimable(staked, current_time, state),
        nothing_accrued(estimates(staked, current_time, state)),
{
    assert forall|i: int| 0 <= i < state.reward_contracts@.len() implies (#[trigger] stream_amount(
        staked,
        current_time,
        state,
        state.reward_contracts@[i].rewards_per_day,
    )) == Some(0u128) by {}
}

/// Full withdrawal resets the position: after a withdrawal of everything, the
/// position's estimate is zero for every stream at every later moment.
pub proof fn full_withdrawal_stops_accrual(
    state: State,
    staked: Staked,
    staked_nfts: Seq<String>,
    current_time: u64,
    recipient: String,
    payouts: Seq<u128>,
    state_after: State,
    staked_after: Staked,
    staked_nfts_after: Seq<String>,
    response: Response,
    later: u64,
    later_state: State,
)
    requires
        withdrawn(
            state,
            staked,
            staked_nfts,
            current_time,
            recipient,
            payouts,
            state_after,
            staked_after,
            staked_nfts_after,
            response,
        ),
    ensures
        estimable(staked_after, later, later_state),
        nothing_accrued(estimates(staked_after, later, later_state)),
{
    empty_position_earns_nothing(staked_after, later, later_state);
}

/// Withdrawal of every item by quantity resets the position as a full
/// withdrawal does.
pub proof fn whole_quantity_stops_accrual(
    state: State,
    staked: Staked,
    staked_nfts: Seq<String>,
    current_time: u64,
    recipient: String,
    quantity: u128,
    payouts: Seq<u128>,
    state_after: State,
    staked_after: Staked,
    staked_nfts_after: Seq<String>,
    response: Response,
    later: u64,
    later_state: State,
)
    requires
        quantity == staked_nfts.len(),
        quantity_withdrawn(
            state,
            staked,
            staked_nfts,
            current_time,
            recipient,
            quantity,
            payouts,
            state_after,
            staked_after,
            staked_nfts_after,
            response,
        ),
    ensures
        estimable(staked_after, later, later_state),
        nothing_accrued(estimates(staked_after, later, later_state)),
{
    empty_position_earns_nothing(staked_after, later, later_state);
}

/// Taking collateral out without rewards resets the position as a full
/// withdrawal does.
pub proof fn take_out_stops_accrual(
    state: State,
    staked: Staked,
    staked_nfts: Seq<String>,
    current_time: u64,
    recipient: String,
    amount: u128,
    state_after: State,
    staked_after: Staked,
    staked_nfts_after: Seq<String>,
    response: Response,
    later: u64,
    later_state: State,
)
    requires
        taken_out(
            state,
            staked,
            staked_nfts,
            current_time,
            recipient,
            amount,
            state_after,
            staked_after,
            staked_nfts_after,
            response,
        ),
    ensures
        estimable(staked_after, later, later_state),
        nothing_accrued(estimates(staked_after, later, later_state)),
{
    empty_position_earns_nothing(staked_after, later, later_state);
}

/// A deposit leaves the position well formed: it holds collateral and knows
/// since when.
pub proof fn deposit_keeps_well_formed(
    state: State,
    staked: Staked,
    staked_nfts: Seq<String>,
    current_time: u64,
    recipient: String,
    token_ids: Seq<String>,
    added: Seq<u128>,
    payouts: Seq<u128>,
    state_after: State,
    staked_after: Staked,
    staked_nfts_after: Seq<String>,
    response: Response,
)
    requires
        deposited(
            state,
            staked,
            staked_nfts,
            current_time,
            recipient,
            token_ids,
            added,
            payouts,
            state_after,
            staked_after,
            staked_nfts_after,
            response,
        ),
    ensures
        staked_after.well_formed(),
{
}

/// A claim leaves the position well formed.
pub proof fn claim_keeps_well_formed(
    state: State,
    staked: Staked,
    current_time: u64,
    recipient: String,
    payouts: Seq<u128>,
    state_after: State,
    staked_after: Staked,
    response: Response,
)
    requires
        claimed(
            state,
            staked,
            current_time,
            recipient,
            payouts,
            state_after,
            staked_after,
            response,
        ),
    ensures
        staked_after.well_formed(),
{
}

/// A withdrawal by quantity leaves the position well formed.
pub proof fn quantity_withdraw_keeps_well_formed(
    state: State,
    staked: Staked,
    staked_nfts: Seq<String>,
    current_time: u64,
    recipient: String,
    quantity: u128,
    payouts: Seq<u128>,
    state_after: State,
    staked_after: Staked,
    staked_nfts_after: Seq<String>,
    response: Response,
)
    requires
        quantity_withdrawn(
            state,
            staked,
            staked_nfts,
            current_time,
            recipient,
            quantity,
            payouts,
            state_after,
            staked_after,
            staked_nfts_after,
            response,
        ),
    ensures
        staked_after.well_formed(),
{
}

/// Conservation in a token pool under deposit: where the pool's total is the
/// sum of the positions before, it is so after.
pub proof fn token_deposit_conserves(
    state: crate::token::State,
    positions: Seq<Staked>,
    participant: int,
    current_time: u64,
    info_sender: String,
    recipient: String,
    amount: u128,
    payout: u128,
    state_after: crate::token::State,
    staked_after: Staked,
    response: Response,
)
    requires
        0 <= participant < positions.len(),
        state.total_staked_amount == total_staked(positions),
        crate::token::receive_outcome(
            state,
            positions[participant],
            current_time,
            info_sender,
            amount,
            Some(crate::token::HandleReceiveMsg::ReceiveStake {  }),
        ) == Ok::<u128, ContractError>(payout),
        crate::token::staked_more(
            state,
            positions[participant],
            current_time,
            recipient,
            amount,
            payout,
            state_after,
            staked_after,
            response,
        ),
    ensures
        state_after.total_staked_amount == total_staked(
            positions.update(participant, staked_after),
        ),
        payout <= state.total_rewards,
        state_after.total_rewards + payout == state.total_rewards,
{
    lemma_total_staked_update(positions, participant, staked_after);
}

/// Conservation in a token pool under withdrawal: where the pool's total is
/// the sum of the positions before, it is so after; and the reserve pays no
/// more than it holds.
pub proof fn token_withdraw_conserves(
    state: crate::token::State,
    positions: Seq<Staked>,
    participant: int,
    current_time: u64,
    recipient: String,
    payout: u128,
    state_after: crate::token::State,
    staked_after: Staked,
    response: Response,
)
    requires
        0 <= participant < positions.len(),
        state.total_staked_amount == total_staked(positions),
        crate::token::withdraw_outcome(state, positions[participant], current_time) == Ok::<
            u128,
            ContractError,
        >(payout),
        crate::token::withdrawn(
            state,
            positions[participant],
            current_time,
            recipient,
            payout,
            state_after,
            staked_after,
            response,
        ),
    ensures
        state_after.total_staked_amount == total_staked(
            positions.update(participant, staked_after),
        ),
        payout <= state.total_rewards,
        state_after.total_rewards + payout == state.total_rewards,
        crate::token::accrued_amount(state_after, staked_after, current_time) == Some(0u128),
{
    lemma_total_staked_update(positions, participant, staked_after);
}

/// Reserve non-negativity in a token pool: a claim that is paid takes no more
/// than the reserve holds.
pub proof fn token_claim_never_overdraws(
    state: crate::token::State,
    staked: Staked,
    current_time: u64,
)
    ensures
        crate::token::claim_outcome(state, staked, current_time) matches Ok(payout) ==> 0 < payout
            <= state.total_rewards,
{
}

} // verus!
