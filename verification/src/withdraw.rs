//! Taking collateral out of a pool: by the participant, with or without the
//! rewards accrued, and by the owner.

use crate::contract::nothing_to_do;
use crate::error::ContractError;
use crate::msg::{Action, History, Response, Staked, StakingWeight, Transfer, UserStakingWeight};
use crate::rewards::{estimable, estimates, find_weight, get_estimated_rewards, weight_of};
use crate::settle::{
    claim_history, paid_out, pay_out, payouts_on_the_way, reward_messages, settlement_payouts,
};
use crate::state::State;
use vstd::prelude::*;

verus! {

/// A weighting dimension after a position's weight has left it.
pub open spec fn released(
    dimension: StakingWeight,
    weights: Seq<UserStakingWeight>,
) -> StakingWeight {
    StakingWeight {
        amount: (dimension.amount - weight_of(weights, dimension.weight_trait_type@)) as u128,
        ..dimension
    }
}

/// Whether each of the dimensions holds at least what the position
/// contributes to it.
pub open spec fn all_releasable(
    dimensions: Seq<StakingWeight>,
    weights: Seq<UserStakingWeight>,
) -> bool {
    forall|i: int|
        0 <= i < dimensions.len() ==> weight_of(
            weights,
            (#[trigger] dimensions[i]).weight_trait_type@,
        ) <= dimensions[i].amount
}

/// Whether every weighting dimension of a pool holds at least what the
/// position contributes to it.
pub open spec fn releasable(
    dimensions: Option<Vec<StakingWeight>>,
    weights: Seq<UserStakingWeight>,
) -> bool {
    match dimensions {
        Some(dimensions) => all_releasable(dimensions@, weights),
        None => true,
    }
}

/// Whether `after` holds the weighting dimensions of `before` with the
/// position's weights taken out. A dimension in which the position records no
/// weight stays as it is.
pub open spec fn weights_released(
    before: Option<Vec<StakingWeight>>,
    weights: Seq<UserStakingWeight>,
    after: Option<Vec<StakingWeight>>,
) -> bool {
    match before {
        None => after is None,
        Some(dimensions) => after is Some && after->Some_0@ == dimensions@.map_values(
            |dimension: StakingWeight| released(dimension, weights),
        ),
    }
}

/// Whether `after` is the pool `state` once `amount` of collateral with the
/// given weights has left it. Reward streams are not spoken of.
pub open spec fn collateral_left(
    state: State,
    weights: Seq<UserStakingWeight>,
    amount: u128,
    after: State,
) -> bool {
    &&& after == (State {
        reward_contracts: after.reward_contracts,
        staking_weights: after.staking_weights,
        total_staked_amount: (state.total_staked_amount - amount) as u128,
        ..state
    })
    &&& weights_released(state.staking_weights, weights, after.staking_weights)
}

/// Whether the position is that of a participant who holds nothing.
pub open spec fn vacated(staked: Staked, staked_nfts: Seq<String>) -> bool {
    &&& staked.staked_amount == 0
    &&& staked.last_claimed_date is None
    &&& staked.last_staked_date is None
    &&& staked.staking_weights is Some
    &&& staked.weights().len() == 0
    &&& staked_nfts.len() == 0
}

/// Whether `message` hands the items `token_ids` back to `recipient`.
pub open spec fn returns_collateral(
    message: Transfer,
    recipient: String,
    token_ids: Seq<String>,
) -> bool {
    message matches Transfer::Collateral { recipient: to, token_ids: ids } && to == recipient
        && ids@ == token_ids
}

/// Whether the response holds the claims of `payouts`, then the return of
/// `token_ids` to `recipient` and a withdrawal record over `amount`.
pub open spec fn answers_withdrawal(
    response: Response,
    payouts: Seq<u128>,
    recipient: String,
    token_ids: Seq<String>,
    amount: u128,
    date: u64,
) -> bool {
    &&& response.history@ == claim_history(payouts, date, payouts.len()).push(
        History { amount, date, action: Action::Withdraw },
    )
    &&& response.messages@.len() > 0
    &&& response.messages@.drop_last() == reward_messages(payouts, recipient, payouts.len())
    &&& returns_collateral(response.messages@.last(), recipient, token_ids)
}

/// Tells whether each of the dimensions holds at least what the position
/// contributes to it.
fn can_release_all(dimensions: &Vec<StakingWeight>, weights: &Vec<UserStakingWeight>) -> (r: bool)
    ensures
        r == all_releasable(dimensions@, weights@),
{
    let mut i: usize = 0;
    while i < dimensions.len()
        invariant
            i <= dimensions@.len(),
            forall|j: int|
                0 <= j < i ==> weight_of(weights@, (#[trigger] dimensions@[j]).weight_trait_type@)
                    <= dimensions@[j].amount,
        decreases dimensions@.len() - i,
    {
        if find_weight(weights, &dimensions[i].weight_trait_type) > dimensions[i].amount {
            assert(weight_of(weights@, dimensions@[i as int].weight_trait_type@)
                > dimensions@[i as int].amount);
            return false;
        }
        i = i + 1;
    }
    true
}

/// Tells whether every weighting dimension of a pool holds at least what the
/// position contributes to it.
fn can_release(dimensions: &Option<Vec<StakingWeight>>, weights: &Vec<UserStakingWeight>) -> (r:
    bool)
    ensures
        r == releasable(*dimensions, weights@),
{
    match dimensions {
        Some(dimensions) => can_release_all(dimensions, weights),
        None => true,
    }
}

/// Takes the position's weights out of the dimensions.
fn release_from(dimensions: &mut Vec<StakingWeight>, weights: &Vec<UserStakingWeight>)
    requires
        all_releasable(old(dimensions)@, weights@),
    ensures
        final(dimensions)@ == old(dimensions)@.map_values(
            |dimension: StakingWeight| released(dimension, weights@),
        ),
{
    let mut i: usize = 0;
    while i < dimensions.len()
        invariant
            i <= dimensions@.len(),
            dimensions@.len() == old(dimensions)@.len(),
            all_releasable(old(dimensions)@, weights@),
            forall|j: int|
                0 <= j < i ==> dimensions@[j] == released(old(dimensions)@[j], weights@),
            forall|j: int| i <= j < dimensions@.len() ==> dimensions@[j] == old(dimensions)@[j],
        decreases dimensions@.len() - i,
    {
        let weight = find_weight(weights, &dimensions[i].weight_trait_type);
        assert(weight <= old(dimensions)@[i as int].amount);
        dimensions[i].amount = dimensions[i].amount - weight;
        i = i + 1;
    }
    assert(dimensions@ =~= old(dimensions)@.map_values(
        |dimension: StakingWeight| released(dimension, weights@),
    ));
}

/// Takes `amount` of collateral with the given weights out of the pool's
/// aggregates.
fn leave(state: &mut State, weights: &Vec<UserStakingWeight>, amount: u128)
    requires
        releasable(old(state).staking_weights, weights@),
        amount <= old(state).total_staked_amount,
    ensures
        collateral_left(*old(state), weights@, amount, *final(state)),
        final(state).reward_contracts == old(state).reward_contracts,
{
    state.total_staked_amount = state.total_staked_amount - amount;
    match &mut state.staking_weights {
        Some(dimensions) => {
            release_from(dimensions, weights);
        },
        None => {},
    }
}

/// The weights that the position records; none where it records nothing.
fn recorded_weights(staked: &mut Staked) -> (weights: Vec<UserStakingWeight>)
    ensures
        weights@ == old(staked).weights(),
        *final(staked) == (Staked { staking_weights: None, ..*old(staked) }),
{
    match staked.staking_weights.take() {
        Some(weights) => weights,
        None => Vec::new(),
    }
}

/// Tells whether every weighting dimension of the pool holds at least what
/// the position contributes to it.
fn weights_fit(state: &State, staked: &Staked) -> (r: bool)
    ensures
        r == releasable(state.staking_weights, staked.weights()),
{
    match &staked.staking_weights {
        Some(weights) => can_release(&state.staking_weights, weights),
        None => {
            let weights: Vec<UserStakingWeight> = Vec::new();
            can_release(&state.staking_weights, &weights)
        },
    }
}

/// What `try_withdraw` answers: what it pays on the way, or why it refuses.
pub open spec fn withdraw_outcome(
    state: State,
    staked: Staked,
    staked_nfts: Seq<String>,
    current_time: u64,
) -> Result<Seq<u128>, ContractError> {
    if staked.staked_amount == 0 || staked_nfts.len() == 0 {
        Err(ContractError::NothingStaked)
    } else if !estimable(staked, current_time, state) || !releasable(
        state.staking_weights,
        staked.weights(),
    ) || staked.staked_amount > state.total_staked_amount {
        Err(ContractError::Overflow)
    } else {
        Ok(settlement_payouts(state.reward_contracts@, estimates(staked, current_time, state)))
    }
}

/// What a full withdrawal that pays `payouts` on the way leaves behind.
pub open spec fn withdrawn(
    state: State,
    staked: Staked,
    staked_nfts: Seq<String>,
    current_time: u64,
    recipient: String,
    payouts: Seq<u128>,
    state_after: State,
    staked_after: Staked,
    staked_nfts_after: Seq<String>,
    response: Response,
) -> bool {
    &&& collateral_left(state, staked.weights(), staked.staked_amount, state_after)
    &&& state_after.reward_contracts@ == paid_out(state.reward_contracts@, payouts)
    &&& vacated(staked_after, staked_nfts_after)
    &&& answers_withdrawal(
        response,
        payouts,
        recipient,
        staked_nfts,
        staked.staked_amount,
        current_time,
    )
}

/// Hands the participant `info_sender` all the collateral of the position
/// back, after paying what has accrued up to `current_time`.
///
/// On the way each stream pays its amount where that is positive and the
/// reserve holds more than it; a stream that cannot pay is passed over. The
/// pool's total goes down by the position's amount and its weighting
/// dimensions by the position's weights. The position is left empty, with its
/// dates cleared. The history gets the claims and a withdrawal record over the
/// amount withdrawn.
///
/// Refuses with `NothingStaked` where the position holds nothing, and with
/// `Overflow` where an amount cannot be computed or the pool's aggregates hold
/// less than the position takes out.
pub fn try_withdraw(
    state: &mut State,
    staked: &mut Staked,
    staked_nfts: &mut Vec<String>,
    current_time: u64,
    info_sender: &String,
) -> (r: Result<Response, ContractError>)
    ensures
        withdraw_outcome(*old(state), *old(staked), old(staked_nfts)@, current_time) matches Ok(
            payouts,
        ) ==> r is Ok && withdrawn(
            *old(state),
            *old(staked),
            old(staked_nfts)@,
            current_time,
            *info_sender,
            payouts,
            *final(state),
            *final(staked),
            final(staked_nfts)@,
            r->Ok_0,
        ),
        withdraw_outcome(*old(state), *old(staked), old(staked_nfts)@, current_time) matches Err(
            e,
        ) ==> r == Err::<Response, ContractError>(e) && *final(state) == *old(state)
            && *final(staked) == *old(staked) && *final(staked_nfts) == *old(staked_nfts),
{
    if staked.staked_amount == 0 || staked_nfts.len() == 0 {
        return Err(ContractError::NothingStaked);
    }
    let rewards = match get_estimated_rewards(staked, &current_time, state) {
        Ok(rewards) => rewards,
        Err(e) => {
            return Err(e);
        },
    };
    if !weights_fit(state, staked) || staked.staked_amount > state.total_staked_amount {
        return Err(ContractError::Overflow);
    }
    let payouts = payouts_on_the_way(state, &rewards);
    let mut response = nothing_to_do();
    pay_out(state, &payouts, info_sender, current_time, &mut response);
    let amount = staked.staked_amount;
    let weights = recorded_weights(staked);
    leave(state, &weights, amount);
    let mut token_ids: Vec<String> = Vec::new();
    token_ids.append(staked_nfts);
    response.messages.push(Transfer::Collateral { recipient: info_sender.clone(), token_ids });
    response.history.push(History { amount, date: current_time, action: Action::Withdraw });
    *staked = Staked::empty();
    proof {
        let paid = reward_messages(payouts@, *info_sender, payouts@.len());
        assert(response.messages@.drop_last() =~= paid);
        assert(response.history@ =~= claim_history(payouts@, current_time, payouts@.len()).push(
            History { amount, date: current_time, action: Action::Withdraw },
        ));
    }
    Ok(response)
}

/// What `try_withdraw_with_quantity` answers: what it pays on the way, or why
/// it refuses.
pub open spec fn withdraw_quantity_outcome(
    state: State,
    staked: Staked,
    staked_nfts: Seq<String>,
    current_time: u64,
    quantity: u128,
) -> Result<Seq<u128>, ContractError> {
    if staked.staked_amount == 0 || staked_nfts.len() == 0 {
        Err(ContractError::NothingStaked)
    } else if staked_nfts.len() < quantity || staked.staked_amount < quantity {
        Err(ContractError::InsufficientStake)
    } else if state.staking_weights is Some && quantity < staked_nfts.len() {
        Err(ContractError::UnsupportedForWeightedPools)
    } else if !estimable(staked, current_time, state) || !releasable(
        state.staking_weights,
        staked.weights(),
    ) || quantity > state.total_staked_amount {
        Err(ContractError::Overflow)
    } else {
        Ok(settlement_payouts(state.reward_contracts@, estimates(staked, current_time, state)))
    }
}

/// The position that keeps `kept` items after a withdrawal at `current_time`:
/// settled at that moment where it keeps anything, and without dates where it
/// keeps nothing.
pub open spec fn remaining_position(kept: u128, current_time: u64, staked: Staked) -> bool {
    &&& staked.staked_amount == kept
    &&& staked.last_claimed_date is None
    &&& staked.last_staked_date == (if kept > 0 {
        Some(current_time)
    } else {
        None
    })
    &&& staked.staking_weights is Some
    &&& staked.weights().len() == 0
}

/// What a withdrawal of the first `quantity` items that pays `payouts` on the
/// way leaves behind.
pub open spec fn quantity_withdrawn(
    state: State,
    staked: Staked,
    staked_nfts: Seq<String>,
    current_time: u64,
    recipient: String,
    quantity: u128,
    payouts: Seq<u128>,
    state_after: State,
    staked_after: Staked,
    staked_nfts_after: Seq<String>,
    response: Response,
) -> bool {
    &&& collateral_left(state, staked.weights(), quantity, state_after)
    &&& state_after.reward_contracts@ == paid_out(state.reward_contracts@, payouts)
    &&& staked_nfts_after == staked_nfts.subrange(quantity as int, staked_nfts.len() as int)
    &&& remaining_position((staked_nfts.len() - quantity) as u128, current_time, staked_after)
    &&& answers_withdrawal(
        response,
        payouts,
        recipient,
        staked_nfts.subrange(0, quantity as int),
        (staked_nfts.len() - quantity) as u128,
        current_time,
    )
}

/// Hands the participant `info_sender` the first `quantity` items of the
/// position back, after paying what has accrued up to `current_time`.
///
/// Streams pay on the way as in `try_withdraw`. The pool's total goes down by
/// `quantity`. The position keeps the remaining items and counts them; it is
/// settled at `current_time` where it keeps any, and left empty where it keeps
/// none. The history gets the claims and a withdrawal record over the number
/// of items that the position keeps.
///
/// Refuses with `NothingStaked` where the position holds nothing, with
/// `InsufficientStake` where it holds or counts fewer than `quantity` items, with
/// `UnsupportedForWeightedPools` where the pool has weighting dimensions and
/// some items would stay, and with `Overflow` where an amount cannot be
/// computed or the pool's aggregates hold less than is taken out.
pub fn try_withdraw_with_quantity(
    state: &mut State,
    staked: &mut Staked,
    staked_nfts: &mut Vec<String>,
    current_time: u64,
    info_sender: &String,
    quantity: u128,
) -> (r: Result<Response, ContractError>)
    ensures
        withdraw_quantity_outcome(
            *old(state),
            *old(staked),
            old(staked_nfts)@,
            current_time,
            quantity,
        ) matches Ok(payouts) ==> r is Ok && quantity_withdrawn(
            *old(state),
            *old(staked),
            old(staked_nfts)@,
            current_time,
            *info_sender,
            quantity,
            payouts,
            *final(state),
            *final(staked),
            final(staked_nfts)@,
            r->Ok_0,
        ),
        withdraw_quantity_outcome(
            *old(state),
            *old(staked),
            old(staked_nfts)@,
            current_time,
            quantity,
        ) matches Err(e) ==> r == Err::<Response, ContractError>(e) && *final(state) == *old(state)
            && *final(staked) == *old(staked) && *final(staked_nfts) == *old(staked_nfts),
{
    if staked.staked_amount == 0 || staked_nfts.len() == 0 {
        return Err(ContractError::NothingStaked);
    }
    if (staked_nfts.len() as u128) < quantity || staked.staked_amount < quantity {
        return Err(ContractError::InsufficientStake);
    }
    let count = quantity as usize;
    if state.staking_weights.is_some() && count < staked_nfts.len() {
        return Err(ContractError::UnsupportedForWeightedPools);
    }
    let rewards = match get_estimated_rewards(staked, &current_time, state) {
        Ok(rewards) => rewards,
        Err(e) => {
            return Err(e);
        },
    };
    if !weights_fit(state, staked) || quantity > state.total_staked_amount {
        return Err(ContractError::Overflow);
    }
    let payouts = payouts_on_the_way(state, &rewards);
    let mut response = nothing_to_do();
    pay_out(state, &payouts, info_sender, current_time, &mut response);
    let weights = recorded_weights(staked);
    leave(state, &weights, quantity);
    let mut kept_ids = staked_nfts.split_off(count);
    let mut token_ids: Vec<String> = Vec::new();
    token_ids.append(staked_nfts);
    staked_nfts.append(&mut kept_ids);
    let kept = staked_nfts.len() as u128;
    response.messages.push(Transfer::Collateral { recipient: info_sender.clone(), token_ids });
    response.history.push(History { amount: kept, date: current_time, action: Action::Withdraw });
    *staked =
    Staked {
        staked_amount: kept,
        last_claimed_date: None,
        last_staked_date: if kept > 0 {
            Some(current_time)
        } else {
            None
        },
        staking_weights: Some(Vec::new()),
    };
    proof {
        let paid = reward_messages(payouts@, *info_sender, payouts@.len());
        assert(response.messages@.drop_last() =~= paid);
        assert(response.history@ =~= claim_history(payouts@, current_time, payouts@.len()).push(
            History { amount: kept, date: current_time, action: Action::Withdraw },
        ));
        assert(staked_nfts@ =~= old(staked_nfts)@.subrange(
            quantity as int,
            old(staked_nfts)@.len() as int,
        ));
        assert(response.messages@.last()->Collateral_token_ids@ =~= old(staked_nfts)@.subrange(
            0,
            quantity as int,
        ));
    }
    Ok(response)
}

/// What `try_withdraw_no_reward` answers: nothing, or why it refuses.
pub open spec fn withdraw_no_reward_outcome(
    state: State,
    staked: Staked,
    staked_nfts: Seq<String>,
) -> Result<(), ContractError> {
    if staked.staked_amount == 0 || staked_nfts.len() == 0 {
        Err(ContractError::NothingStaked)
    } else if !releasable(state.staking_weights, staked.weights()) || staked.staked_amount
        > state.total_staked_amount {
        Err(ContractError::Overflow)
    } else {
        Ok(())
    }
}

/// What taking `amount` of collateral out without settling rewards leaves
/// behind: the reserves untouched, the position empty, the items on their way
/// to `recipient`, and one withdrawal record over `amount`.
pub open spec fn taken_out(
    state: State,
    staked: Staked,
    staked_nfts: Seq<String>,
    current_time: u64,
    recipient: String,
    amount: u128,
    state_after: State,
    staked_after: Staked,
    staked_nfts_after: Seq<String>,
    response: Response,
) -> bool {
    &&& collateral_left(state, staked.weights(), amount, state_after)
    &&& state_after.reward_contracts == state.reward_contracts
    &&& vacated(staked_after, staked_nfts_after)
    &&& response.history@ == seq![History { amount, date: current_time, action: Action::Withdraw }]
    &&& response.messages@.len() == 1
    &&& returns_collateral(response.messages@[0], recipient, staked_nfts)
}

/// Empties the position and reports the items as handed to `recipient`.
fn take_out(
    state: &mut State,
    staked: &mut Staked,
    staked_nfts: &mut Vec<String>,
    current_time: u64,
    recipient: &String,
    amount: u128,
) -> (response: Response)
    requires
        releasable(old(state).staking_weights, old(staked).weights()),
        amount <= old(state).total_staked_amount,
    ensures
        taken_out(
            *old(state),
            *old(staked),
            old(staked_nfts)@,
            current_time,
            *recipient,
            amount,
            *final(state),
            *final(staked),
            final(staked_nfts)@,
            response,
        ),
{
    let mut response = nothing_to_do();
    let weights = recorded_weights(staked);
    leave(state, &weights, amount);
    let mut token_ids: Vec<String> = Vec::new();
    token_ids.append(staked_nfts);
    response.messages.push(Transfer::Collateral { recipient: recipient.clone(), token_ids });
    response.history.push(History { amount, date: current_time, action: Action::Withdraw });
    *staked = Staked::empty();
    assert(response.history@ =~= seq![
        History { amount, date: current_time, action: Action::Withdraw },
    ]);
    response
}

/// Hands the participant `info_sender` all the collateral of the position
/// back and gives up what has accrued: no reward is paid and no reserve
/// changes.
///
/// The pool's total goes down by the position's amount and its weighting
/// dimensions by the position's weights. The position is left empty. The
/// history gets one withdrawal record over the amount withdrawn.
///
/// Refuses with `NothingStaked` where the position holds nothing, and with
/// `Overflow` where the pool's aggregates hold less than the position takes
/// out.
pub fn try_withdraw_no_reward(
    state: &mut State,
    staked: &mut Staked,
    staked_nfts: &mut Vec<String>,
    current_time: u64,
    info_sender: &String,
) -> (r: Result<Response, ContractError>)
    ensures
        withdraw_no_reward_outcome(*old(state), *old(staked), old(staked_nfts)@) is Ok ==> r is Ok
            && taken_out(
            *old(state),
            *old(staked),
            old(staked_nfts)@,
            current_time,
            *info_sender,
            old(staked).staked_amount,
            *final(state),
            *final(staked),
            final(staked_nfts)@,
            r->Ok_0,
        ),
        withdraw_no_reward_outcome(*old(state), *old(staked), old(staked_nfts)@) matches Err(e)
            ==> r == Err::<Response, ContractError>(e) && *final(state) == *old(state)
            && *final(staked) == *old(staked) && *final(staked_nfts) == *old(staked_nfts),
{
    if staked.staked_amount == 0 || staked_nfts.len() == 0 {
        return Err(ContractError::NothingStaked);
    }
    if !weights_fit(state, staked) || staked.staked_amount > state.total_staked_amount {
        return Err(ContractError::Overflow);
    }
    let amount = staked.staked_amount;
    Ok(take_out(state, staked, staked_nfts, current_time, info_sender, amount))
}

/// What `try_eject` answers: nothing, or why it refuses.
pub open spec fn eject_outcome(
    state: State,
    staked: Staked,
    staked_nfts: Seq<String>,
    sender: String,
) -> Result<(), ContractError> {
    if sender@ != state.owner@ {
        Err(ContractError::Unauthorized)
    } else if staked_nfts.len() == 0 {
        Err(ContractError::NothingStaked)
    } else if !releasable(state.staking_weights, staked.weights()) || staked_nfts.len()
        > state.total_staked_amount {
        Err(ContractError::Overflow)
    } else {
        Ok(())
    }
}

/// Removes the participant `staker` from the pool: all items of the position
/// go back to `staker`, and no reward is paid. Only the owner may.
///
/// The pool's total goes down by the number of items and its weighting
/// dimensions by the position's weights. No reserve changes. The position is
/// left empty. The history of `staker` gets one withdrawal record over the
/// number of items.
///
/// Refuses with `Unauthorized` where `sender` is not the owner, with
/// `NothingStaked` where the position holds no item, and with `Overflow` where
/// the pool's aggregates hold less than the position takes out.
pub fn try_eject(
    state: &mut State,
    staked: &mut Staked,
    staked_nfts: &mut Vec<String>,
    current_time: u64,
    sender: &String,
    staker: &String,
) -> (r: Result<Response, ContractError>)
    ensures
        eject_outcome(*old(state), *old(staked), old(staked_nfts)@, *sender) is Ok ==> r is Ok
            && taken_out(
            *old(state),
            *old(staked),
            old(staked_nfts)@,
            current_time,
            *staker,
            old(staked_nfts)@.len() as u128,
            *final(state),
            *final(staked),
            final(staked_nfts)@,
            r->Ok_0,
        ),
        eject_outcome(*old(state), *old(staked), old(staked_nfts)@, *sender) matches Err(e) ==> r
            == Err::<Response, ContractError>(e) && *final(state) == *old(state) && *final(staked)
            == *old(staked) && *final(staked_nfts) == *old(staked_nfts),
{
    if *sender != state.owner {
        return Err(ContractError::Unauthorized);
    }
    if staked_nfts.len() == 0 {
        return Err(ContractError::NothingStaked);
    }
    let amount = staked_nfts.len() as u128;
    if !weights_fit(state, staked) || amount > state.total_staked_amount {
        return Err(ContractError::Overflow);
    }
    Ok(take_out(state, staked, staked_nfts, current_time, staker, amount))
}

} // verus!
