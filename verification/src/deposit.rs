//! Putting collateral into a pool.

use crate::contract::nothing_to_do;
use crate::error::ContractError;
use crate::msg::{Action, History, Response, Staked, StakingWeight, Trait, UserStakingWeight};
use crate::rewards::{estimable, estimates, find_weight, get_estimated_rewards, weight_of};
use crate::settle::{
    any_paid, claim_history, paid_out, pay_out, payouts_on_the_way, pays_anything,
    reward_messages, settlement_payouts,
};
use crate::state::State;
use crate::traits::{added_weights, collateral_weights, first_refusal};
use vstd::prelude::*;

verus! {

/// Whether the dimensions and the position can take the added weights within
/// the machine's integers.
pub open spec fn addable(
    dimensions: Seq<StakingWeight>,
    weights: Seq<UserStakingWeight>,
    added: Seq<u128>,
) -> bool {
    forall|k: int|
        0 <= k < dimensions.len() ==> (#[trigger] dimensions[k]).amount + added[k] <= u128::MAX
            && weight_of(weights, dimensions[k].weight_trait_type@) + added[k] <= u128::MAX
}

/// A weighting dimension after `added` weight has come to it.
pub open spec fn raised(dimension: StakingWeight, added: u128) -> StakingWeight {
    StakingWeight { amount: (dimension.amount + added) as u128, ..dimension }
}

/// What a position contributes in a dimension after `added` weight has come
/// to it.
pub open spec fn contribution(
    weights: Seq<UserStakingWeight>,
    dimension: StakingWeight,
    added: u128,
) -> UserStakingWeight {
    UserStakingWeight {
        amount: (weight_of(weights, dimension.weight_trait_type@) + added) as u128,
        weight_trait_type: dimension.weight_trait_type,
    }
}

/// Whether `after` holds the weighting dimensions of `before`, each raised by
/// its added weight.
pub open spec fn weights_raised(
    before: Option<Vec<StakingWeight>>,
    added: Seq<u128>,
    after: Option<Vec<StakingWeight>>,
) -> bool {
    match before {
        None => after is None,
        Some(dimensions) => after is Some && after->Some_0@ == Seq::new(
            dimensions@.len(),
            |k: int| raised(dimensions@[k], added[k]),
        ),
    }
}

/// Whether `after` records what the position contributes once the added
/// weights have come to it: one entry for each dimension of the pool, in the
/// pool's order. In a pool without dimensions the record stays as it is.
pub open spec fn contributions_raised(
    dimensions: Option<Vec<StakingWeight>>,
    before: Option<Vec<UserStakingWeight>>,
    weights: Seq<UserStakingWeight>,
    added: Seq<u128>,
    after: Option<Vec<UserStakingWeight>>,
) -> bool {
    match dimensions {
        None => after == before,
        Some(dimensions) => after is Some && after->Some_0@ == Seq::new(
            dimensions@.len(),
            |k: int| contribution(weights, dimensions@[k], added[k]),
        ),
    }
}

/// What `deposit` answers: what it pays on the way, or why it refuses.
pub open spec fn deposit_outcome(
    state: State,
    staked: Staked,
    current_time: u64,
    count: nat,
    added: Seq<u128>,
) -> Result<Seq<u128>, ContractError> {
    if state.staking_weights is Some && added.len() != state.dimensions().len() {
        Err(ContractError::MissingWeightTrait)
    } else if !estimable(staked, current_time, state) || !addable(
        state.dimensions(),
        staked.weights(),
        added,
    ) || state.total_staked_amount + count > u128::MAX || staked.staked_amount + count
        > u128::MAX {
        Err(ContractError::Overflow)
    } else {
        Ok(settlement_payouts(state.reward_contracts@, estimates(staked, current_time, state)))
    }
}

/// What a deposit of the items `token_ids` that pays `payouts` on the way
/// leaves behind.
pub open spec fn deposited(
    state: State,
    staked: Staked,
    staked_nfts: Seq<String>,
    current_time: u64,
    recipient: String,
    token_ids: Seq<String>,
    added: Seq<u128>,
    payouts: Seq<u128>,
    state_after: State,
    staked_after: Staked,
    staked_nfts_after: Seq<String>,
    response: Response,
) -> bool {
    &&& state_after == (State {
        reward_contracts: state_after.reward_contracts,
        staking_weights: state_after.staking_weights,
        total_staked_amount: (state.total_staked_amount + token_ids.len()) as u128,
        ..state
    })
    &&& state_after.reward_contracts@ == paid_out(state.reward_contracts@, payouts)
    &&& weights_raised(state.staking_weights, added, state_after.staking_weights)
    &&& staked_after.staked_amount == staked.staked_amount + token_ids.len()
    &&& staked_after.last_staked_date == Some(current_time)
    &&& staked_after.last_claimed_date == (if any_paid(payouts) {
        Some(current_time)
    } else {
        staked.last_claimed_date
    })
    &&& contributions_raised(
        state.staking_weights,
        staked.staking_weights,
        staked.weights(),
        added,
        staked_after.staking_weights,
    )
    &&& staked_nfts_after == staked_nfts + token_ids
    &&& response.history@ == claim_history(payouts, current_time, payouts.len()).push(
        History { amount: token_ids.len() as u128, date: current_time, action: Action::Stake },
    )
    &&& response.messages@ == reward_messages(payouts, recipient, payouts.len())
}

/// Tells whether the dimensions and the position can take the added weights.
fn can_add(
    dimensions: &Vec<StakingWeight>,
    weights: &Vec<UserStakingWeight>,
    added: &Vec<u128>,
) -> (r: bool)
    requires
        added@.len() == dimensions@.len(),
    ensures
        r == addable(dimensions@, weights@, added@),
{
    let mut k: usize = 0;
    while k < dimensions.len()
        invariant
            k <= dimensions@.len(),
            added@.len() == dimensions@.len(),
            forall|j: int|
                0 <= j < k ==> (#[trigger] dimensions@[j]).amount + added@[j] <= u128::MAX
                    && weight_of(weights@, dimensions@[j].weight_trait_type@) + added@[j]
                    <= u128::MAX,
        decreases dimensions@.len() - k,
    {
        let weight = find_weight(weights, &dimensions[k].weight_trait_type);
        if dimensions[k].amount.checked_add(added[k]).is_none() || weight.checked_add(
            added[k],
        ).is_none() {
            assert(!(dimensions@[k as int].amount + added@[k as int] <= u128::MAX && weight_of(
                weights@,
                dimensions@[k as int].weight_trait_type@,
            ) + added@[k as int] <= u128::MAX));
            return false;
        }
        k = k + 1;
    }
    true
}

/// Lists what the position contributes in each dimension once the added
/// weights have come to it.
fn raised_contributions(
    dimensions: &Vec<StakingWeight>,
    weights: &Vec<UserStakingWeight>,
    added: &Vec<u128>,
) -> (contributions: Vec<UserStakingWeight>)
    requires
        added@.len() == dimensions@.len(),
        addable(dimensions@, weights@, added@),
    ensures
        contributions@ == Seq::new(
            dimensions@.len(),
            |k: int| contribution(weights@, dimensions@[k], added@[k]),
        ),
{
    let mut contributions: Vec<UserStakingWeight> = Vec::new();
    let mut k: usize = 0;
    while k < dimensions.len()
        invariant
            k <= dimensions@.len(),
            added@.len() == dimensions@.len(),
            addable(dimensions@, weights@, added@),
            contributions@.len() == k,
            forall|j: int|
                0 <= j < k ==> contributions@[j] == contribution(
                    weights@,
                    dimensions@[j],
                    added@[j],
                ),
        decreases dimensions@.len() - k,
    {
        let weight = find_weight(weights, &dimensions[k].weight_trait_type);
        assert(weight + added@[k as int] <= u128::MAX) by {
            let dimension = dimensions@[k as int];
        }
        contributions.push(
            UserStakingWeight {
                amount: weight + added[k],
                weight_trait_type: dimensions[k].weight_trait_type.clone(),
            },
        );
        k = k + 1;
    }
    assert(contributions@ =~= Seq::new(
        dimensions@.len(),
        |k: int| contribution(weights@, dimensions@[k], added@[k]),
    ));
    contributions
}

/// Raises each dimension by its added weight.
fn raise(dimensions: &mut Vec<StakingWeight>, added: &Vec<u128>)
    requires
        added@.len() == old(dimensions)@.len(),
        forall|k: int|
            0 <= k < old(dimensions)@.len() ==> (#[trigger] old(dimensions)@[k]).amount
                + added@[k] <= u128::MAX,
    ensures
        final(dimensions)@ == Seq::new(
            old(dimensions)@.len(),
            |k: int| raised(old(dimensions)@[k], added@[k]),
        ),
{
    let mut k: usize = 0;
    while k < dimensions.len()
        invariant
            k <= dimensions@.len(),
            dimensions@.len() == old(dimensions)@.len(),
            added@.len() == dimensions@.len(),
            forall|j: int|
                0 <= j < old(dimensions)@.len() ==> (#[trigger] old(dimensions)@[j]).amount
                    + added@[j] <= u128::MAX,
            forall|j: int| 0 <= j < k ==> dimensions@[j] == raised(old(dimensions)@[j], added@[j]),
            forall|j: int| k <= j < dimensions@.len() ==> dimensions@[j] == old(dimensions)@[j],
        decreases dimensions@.len() - k,
    {
        assert(old(dimensions)@[k as int].amount + added@[k as int] <= u128::MAX);
        dimensions[k].amount = dimensions[k].amount + added[k];
        k = k + 1;
    }
    assert(dimensions@ =~= Seq::new(
        old(dimensions)@.len(),
        |k: int| raised(old(dimensions)@[k], added@[k]),
    ));
}

/// Tells whether the pool and the position can take the added weights.
fn weights_fit(state: &State, staked: &Staked, added: &Vec<u128>) -> (r: bool)
    requires
        state.staking_weights is Some ==> added@.len() == state.dimensions().len(),
    ensures
        r == addable(state.dimensions(), staked.weights(), added@),
{
    match &state.staking_weights {
        Some(dimensions) => match &staked.staking_weights {
            Some(weights) => can_add(dimensions, weights, added),
            None => {
                let weights: Vec<UserStakingWeight> = Vec::new();
                can_add(dimensions, &weights, added)
            },
        },
        None => true,
    }
}

/// Records in the position what it contributes once the added weights have
/// come to it.
fn raise_contributions(state: &State, staked: &mut Staked, added: &Vec<u128>)
    requires
        state.staking_weights is Some ==> added@.len() == state.dimensions().len(),
        addable(state.dimensions(), old(staked).weights(), added@),
    ensures
        *final(staked) == (Staked {
            staking_weights: final(staked).staking_weights,
            ..*old(staked)
        }),
        contributions_raised(
            state.staking_weights,
            old(staked).staking_weights,
            old(staked).weights(),
            added@,
            final(staked).staking_weights,
        ),
{
    match &state.staking_weights {
        Some(dimensions) => {
            let contributions = match &staked.staking_weights {
                Some(weights) => raised_contributions(dimensions, weights, added),
                None => {
                    let weights: Vec<UserStakingWeight> = Vec::new();
                    raised_contributions(dimensions, &weights, added)
                },
            };
            staked.staking_weights = Some(contributions);
        },
        None => {},
    }
}

/// Adds the items `token_ids` to the position of the participant `from`,
/// after paying what the position has accrued up to `current_time`.
///
/// `added` holds the weight that the items together carry in each weighting
/// dimension of the pool, in the pool's order; a pool without dimensions
/// ignores it.
///
/// The rewards are estimated for the position as it stands before the
/// deposit. Each stream pays its amount where that is positive and the
/// reserve holds more than it; a stream that cannot pay is passed over. Then
/// the position and the pool's total grow by the number of items, each
/// dimension and the position's part in it grow by the added weight, and the
/// position is settled at `current_time`. The history gets the claims and a
/// stake record over the number of items.
///
/// Refuses with `MissingWeightTrait` where the pool has dimensions and
/// `added` has not one weight for each, and with `Overflow` where an amount
/// cannot be computed or a sum leaves the 128-bit range.
pub fn deposit(
    state: &mut State,
    staked: &mut Staked,
    staked_nfts: &mut Vec<String>,
    current_time: u64,
    from: &String,
    token_ids: Vec<String>,
    added: &Vec<u128>,
) -> (r: Result<Response, ContractError>)
    ensures
        deposit_outcome(
            *old(state),
            *old(staked),
            current_time,
            token_ids@.len(),
            added@,
        ) matches Ok(payouts) ==> r is Ok && deposited(
            *old(state),
            *old(staked),
            old(staked_nfts)@,
            current_time,
            *from,
            token_ids@,
            added@,
            payouts,
            *final(state),
            *final(staked),
            final(staked_nfts)@,
            r->Ok_0,
        ),
        deposit_outcome(
            *old(state),
            *old(staked),
            current_time,
            token_ids@.len(),
            added@,
        ) matches Err(e) ==> r == Err::<Response, ContractError>(e) && *final(state) == *old(state)
            && *final(staked) == *old(staked) && *final(staked_nfts) == *old(staked_nfts),
{
    let complete = match &state.staking_weights {
        Some(dimensions) => added.len() == dimensions.len(),
        None => true,
    };
    if !complete {
        return Err(ContractError::MissingWeightTrait);
    }
    let rewards = match get_estimated_rewards(staked, &current_time, state) {
        Ok(rewards) => rewards,
        Err(e) => {
            return Err(e);
        },
    };
    if !weights_fit(state, staked, added) {
        return Err(ContractError::Overflow);
    }
    let count = token_ids.len() as u128;
    let (total, amount) = match (
        state.total_staked_amount.checked_add(count),
        staked.staked_amount.checked_add(count),
    ) {
        (Some(total), Some(amount)) => (total, amount),
        _ => {
            return Err(ContractError::Overflow);
        },
    };
    let payouts = payouts_on_the_way(state, &rewards);
    let mut response = nothing_to_do();
    pay_out(state, &payouts, from, current_time, &mut response);
    raise_contributions(state, staked, added);
    match &mut state.staking_weights {
        Some(dimensions) => {
            assert(addable(dimensions@, old(staked).weights(), added@));
            raise(dimensions, added);
        },
        None => {},
    }
    state.total_staked_amount = total;
    staked.staked_amount = amount;
    staked.last_staked_date = Some(current_time);
    if pays_anything(&payouts) {
        staked.last_claimed_date = Some(current_time);
    }
    let mut token_ids = token_ids;
    staked_nfts.append(&mut token_ids);
    response.history.push(History { amount: count, date: current_time, action: Action::Stake });
    proof {
        assert(response.history@ =~= claim_history(payouts@, current_time, payouts@.len()).push(
            History { amount: count, date: current_time, action: Action::Stake },
        ));
        assert(response.messages@ =~= reward_messages(payouts@, *from, payouts@.len()));
    }
    Ok(response)
}

/// Why `try_batch_receive` turns a deposit away before it looks at the
/// position, if it does: the pool is paused, the notice does not come from
/// the pool's collateral contract, or an item is refused.
pub open spec fn batch_receive_refusal(
    state: State,
    sender: String,
    count: nat,
    metadata: Seq<Vec<Trait>>,
) -> Option<ContractError> {
    if !state.is_active {
        Some(ContractError::InactivePool)
    } else if sender@ != state.staking_contract.address@ {
        Some(ContractError::UnauthorizedSource)
    } else {
        first_refusal(state, metadata, count)
    }
}

/// Takes notice that the contract `sender` has received the items
/// `token_ids` from the participant `from`, and deposits them.
///
/// `metadata` holds the attributes of each item, in the items' order. The
/// notice is refused with `InactivePool` while the pool is paused, with
/// `UnauthorizedSource` where `sender` is not the pool's collateral
/// contract, and with `IneligibleCollateral` or `MissingWeightTrait` where
/// an item is refused (see `collateral_weights`); one refused item refuses
/// them all. Items that pass are deposited as `deposit` says, with the weight
/// that they carry in each dimension.
pub fn try_batch_receive(
    state: &mut State,
    staked: &mut Staked,
    staked_nfts: &mut Vec<String>,
    current_time: u64,
    sender: &String,
    from: &String,
    token_ids: Vec<String>,
    metadata: &Vec<Vec<Trait>>,
) -> (r: Result<Response, ContractError>)
    ensures
        batch_receive_refusal(*old(state), *sender, token_ids@.len(), metadata@) matches Some(e)
            ==> r == Err::<Response, ContractError>(e),
        batch_receive_refusal(*old(state), *sender, token_ids@.len(), metadata@) is None ==> (
        deposit_outcome(
            *old(state),
            *old(staked),
            current_time,
            token_ids@.len(),
            added_weights(*old(state), metadata@, token_ids@.len()),
        ) matches Err(e) ==> r == Err::<Response, ContractError>(e)),
        batch_receive_refusal(*old(state), *sender, token_ids@.len(), metadata@) is None ==> (
        deposit_outcome(
            *old(state),
            *old(staked),
            current_time,
            token_ids@.len(),
            added_weights(*old(state), metadata@, token_ids@.len()),
        ) matches Ok(payouts) ==> r is Ok && deposited(
            *old(state),
            *old(staked),
            old(staked_nfts)@,
            current_time,
            *from,
            token_ids@,
            added_weights(*old(state), metadata@, token_ids@.len()),
            payouts,
            *final(state),
            *final(staked),
            final(staked_nfts)@,
            r->Ok_0,
        )),
        r is Err ==> *final(state) == *old(state) && *final(staked) == *old(staked)
            && *final(staked_nfts) == *old(staked_nfts),
{
    if !state.is_active {
        return Err(ContractError::InactivePool);
    }
    if *sender != state.staking_contract.address {
        return Err(ContractError::UnauthorizedSource);
    }
    let added = match collateral_weights(state, token_ids.len(), metadata) {
        Ok(added) => added,
        Err(e) => {
            return Err(e);
        },
    };
    deposit(state, staked, staked_nfts, current_time, from, token_ids, &added)
}

} // verus!
