//! A pool for fungible collateral with a single reward stream.
//!
//! A position is an amount of tokens. It earns its part of the stream's rate
//! as in any pool without weighting dimensions, and what it has earned is
//! paid on every deposit and withdrawal where the reserve allows.

use crate::contract::nothing_to_do;
use crate::error::ContractError;
use crate::msg::{Action, ContractInfo, History, Response, Staked, Transfer, ViewerInfo};
use crate::rewards::{
    accrue, accrued, elapsed_seconds, elapsed_since, per_second_uniform, uniform_rate,
};
use crate::settle::settlement_payout;
use crate::viewing_key::{derived_key, try_set_viewing_key};
use vstd::prelude::*;

verus! {

/// The stream that a token pool pays from.
#[derive(Clone, Debug, PartialEq, Eq)]
pub struct RewardsContractInfo {
    pub code_hash: String,
    pub address: String,
    /// Reward units released per day, shared among all participants.
    pub rewards_per_day: u128,
}

/// Everything the token pool knows that is not a single participant's.
#[derive(Clone, Debug, PartialEq, Eq)]
pub struct State {
    pub owner: String,
    pub is_active: bool,
    pub staking_contract: ContractInfo,
    pub reward_contract: RewardsContractInfo,
    pub viewing_key: Option<String>,
    /// The sum of `staked_amount` over all positions.
    pub total_staked_amount: u128,
    /// The reserve: reward units funded and not yet paid out.
    pub total_rewards: u128,
}

/// The payload of a notice that tokens have arrived.
#[derive(Clone, Copy, Debug, PartialEq, Eq, Structural)]
pub enum HandleReceiveMsg {
    /// The tokens are collateral of the participant who sent them.
    ReceiveStake {  },
    /// The tokens fund the reserve.
    ReceiveRewards {  },
}

/// What the position would be paid at `now`; `None` where the amount cannot
/// be computed within the machine's integers.
pub open spec fn accrued_amount(state: State, staked: Staked, now: u64) -> Option<u128> {
    if staked.staked_amount > 0 && state.total_staked_amount > 0 {
        match (
            elapsed_since(staked, now),
            per_second_uniform(
                staked.staked_amount,
                state.total_staked_amount,
                state.reward_contract.rewards_per_day,
            ),
        ) {
            (Some(elapsed), Some(per_second)) => accrued(per_second, elapsed),
            _ => None,
        }
    } else {
        Some(0)
    }
}

/// Estimates what the position would be paid at `current_time`: its part of
/// the stream's rate for every second since its last settlement, cut down to
/// whole units. `None` where the amount cannot be computed.
pub fn estimate(state: &State, staked: &Staked, current_time: u64) -> (r: Option<u128>)
    ensures
        r == accrued_amount(*state, *staked, current_time),
{
    if staked.staked_amount > 0 && state.total_staked_amount > 0 {
        match (
            elapsed_seconds(staked, current_time),
            uniform_rate(
                staked.staked_amount,
                state.total_staked_amount,
                state.reward_contract.rewards_per_day,
            ),
        ) {
            (Some(elapsed), Some(per_second)) => accrue(per_second, elapsed),
            _ => None,
        }
    } else {
        Some(0)
    }
}

/// The claim record and the transfer of a payout; nothing where nothing is
/// paid.
pub open spec fn payout_history(payout: u128, date: u64) -> Seq<History> {
    if payout > 0 {
        seq![History { amount: payout, date, action: Action::Claim }]
    } else {
        Seq::empty()
    }
}

/// The transfer of a payout; nothing where nothing is paid.
pub open spec fn payout_messages(payout: u128, recipient: String) -> Seq<Transfer> {
    if payout > 0 {
        seq![Transfer::Reward { stream: 0, recipient, amount: payout }]
    } else {
        Seq::empty()
    }
}

/// Takes the payout out of the reserve and adds its claim record and its
/// transfer to `recipient`.
fn pay(state: &mut State, payout: u128, recipient: &String, date: u64, response: &mut Response)
    requires
        payout <= old(state).total_rewards,
    ensures
        *final(state) == (State {
            total_rewards: (old(state).total_rewards - payout) as u128,
            ..*old(state)
        }),
        final(response).history@ == old(response).history@ + payout_history(payout, date),
        final(response).messages@ == old(response).messages@ + payout_messages(payout, *recipient),
{
    state.total_rewards = state.total_rewards - payout;
    if payout > 0 {
        response.history.push(History { amount: payout, date, action: Action::Claim });
        response.messages.push(
            Transfer::Reward { stream: 0, recipient: recipient.clone(), amount: payout },
        );
    }
    assert(response.history@ =~= old(response).history@ + payout_history(payout, date));
    assert(response.messages@ =~= old(response).messages@ + payout_messages(payout, *recipient));
}

/// What `receive` answers: what it pays on the way, or why it refuses.
pub open spec fn receive_outcome(
    state: State,
    staked: Staked,
    current_time: u64,
    info_sender: String,
    amount: u128,
    msg: Option<HandleReceiveMsg>,
) -> Result<u128, ContractError> {
    if !state.is_active {
        Err(ContractError::InactivePool)
    } else {
        match msg {
            None => Err(ContractError::MissingPayload),
            Some(HandleReceiveMsg::ReceiveStake {  }) => {
                if info_sender@ != state.staking_contract.address@ {
                    Err(ContractError::UnauthorizedSource)
                } else if accrued_amount(state, staked, current_time) is None
                    || state.total_staked_amount + amount > u128::MAX || staked.staked_amount
                    + amount > u128::MAX {
                    Err(ContractError::Overflow)
                } else {
                    Ok(
                        settlement_payout(
                            accrued_amount(state, staked, current_time)->Some_0,
                            state.total_rewards,
                        ),
                    )
                }
            },
            Some(HandleReceiveMsg::ReceiveRewards {  }) => {
                if info_sender@ != state.reward_contract.address@ {
                    Err(ContractError::UnknownStream)
                } else if state.total_rewards + amount > u128::MAX {
                    Err(ContractError::Overflow)
                } else {
                    Ok(0)
                }
            },
        }
    }
}

/// What a deposit of `amount` that pays `payout` on the way leaves behind.
pub open spec fn staked_more(
    state: State,
    staked: Staked,
    current_time: u64,
    recipient: String,
    amount: u128,
    payout: u128,
    state_after: State,
    staked_after: Staked,
    response: Response,
) -> bool {
    &&& state_after == (State {
        total_rewards: (state.total_rewards - payout) as u128,
        total_staked_amount: (state.total_staked_amount + amount) as u128,
        ..state
    })
    &&& staked_after == (Staked {
        staked_amount: (staked.staked_amount + amount) as u128,
        last_staked_date: Some(current_time),
        last_claimed_date: if payout > 0 {
            Some(current_time)
        } else {
            staked.last_claimed_date
        },
        ..staked
    })
    &&& response.history@ == payout_history(payout, current_time).push(
        History { amount, date: current_time, action: Action::Stake },
    )
    &&& response.messages@ == payout_messages(payout, recipient)
}

/// What funding the reserve with `amount` leaves behind.
pub open spec fn funded(
    state: State,
    staked: Staked,
    amount: u128,
    state_after: State,
    staked_after: Staked,
    response: Response,
) -> bool {
    &&& state_after == (State { total_rewards: (state.total_rewards + amount) as u128, ..state })
    &&& staked_after == staked
    &&& response.history@.len() == 0
    &&& response.messages@.len() == 0
}

/// Takes notice that the contract `info_sender` has received `amount` tokens
/// from the participant `from`.
///
/// With the payload `ReceiveStake` the tokens are collateral: the position of
/// `from` is paid what it has accrued up to `current_time`, where that is
/// positive and the reserve holds more than it, and then the position and the
/// pool's total grow by `amount` and the position is settled at
/// `current_time`. With the payload `ReceiveRewards` the tokens fund the
/// reserve.
///
/// Refuses with `InactivePool` while the pool is paused, with
/// `MissingPayload` where the notice carries none, with `UnauthorizedSource`
/// where collateral does not come from the pool's collateral contract, with
/// `UnknownStream` where funding does not come from the pool's reward
/// contract, and with `Overflow` where an amount cannot be computed or a sum
/// leaves the 128-bit range.
pub fn receive(
    state: &mut State,
    staked: &mut Staked,
    current_time: u64,
    info_sender: &String,
    sender: &String,
    from: &String,
    amount: u128,
    msg: Option<HandleReceiveMsg>,
) -> (r: Result<Response, ContractError>)
    ensures
        receive_outcome(
            *old(state),
            *old(staked),
            current_time,
            *info_sender,
            amount,
            msg,
        ) matches Err(e) ==> r == Err::<Response, ContractError>(e) && *final(state) == *old(state)
            && *final(staked) == *old(staked),
        receive_outcome(
            *old(state),
            *old(staked),
            current_time,
            *info_sender,
            amount,
            msg,
        ) matches Ok(payout) ==> r is Ok && (msg == Some(HandleReceiveMsg::ReceiveStake {  })
            ==> staked_more(
            *old(state),
            *old(staked),
            current_time,
            *from,
            amount,
            payout,
            *final(state),
            *final(staked),
            r->Ok_0,
        )) && (msg == Some(HandleReceiveMsg::ReceiveRewards {  }) ==> funded(
            *old(state),
            *old(staked),
            amount,
            *final(state),
            *final(staked),
            r->Ok_0,
        )),
{
    if !state.is_active {
        return Err(ContractError::InactivePool);
    }
    match msg {
        None => Err(ContractError::MissingPayload),
        Some(HandleReceiveMsg::ReceiveStake {  }) => {
            if *info_sender != state.staking_contract.address {
                return Err(ContractError::UnauthorizedSource);
            }
            let accrued = match estimate(state, staked, current_time) {
                Some(accrued) => accrued,
                None => {
                    return Err(ContractError::Overflow);
                },
            };
            let (total, held) = match (
                state.total_staked_amount.checked_add(amount),
                staked.staked_amount.checked_add(amount),
            ) {
                (Some(total), Some(held)) => (total, held),
                _ => {
                    return Err(ContractError::Overflow);
                },
            };
            let payout = if 0 < accrued && accrued < state.total_rewards {
                accrued
            } else {
                0
            };
            let mut response = nothing_to_do();
            pay(state, payout, from, current_time, &mut response);
            state.total_staked_amount = total;
            staked.staked_amount = held;
            staked.last_staked_date = Some(current_time);
            if payout > 0 {
                staked.last_claimed_date = Some(current_time);
            }
            response.history.push(
                History { amount, date: current_time, action: Action::Stake },
            );
            assert(response.history@ =~= payout_history(payout, current_time).push(
                History { amount, date: current_time, action: Action::Stake },
            ));
            assert(response.messages@ =~= payout_messages(payout, *from));
            Ok(response)
        },
        Some(HandleReceiveMsg::ReceiveRewards {  }) => {
            if *info_sender != state.reward_contract.address {
                return Err(ContractError::UnknownStream);
            }
            match state.total_rewards.checked_add(amount) {
                Some(reserve) => {
                    state.total_rewards = reserve;
                    Ok(nothing_to_do())
                },
                None => Err(ContractError::Overflow),
            }
        },
    }
}

/// What `try_withdraw` answers: what it pays on the way, or why it refuses.
pub open spec fn withdraw_outcome(state: State, staked: Staked, current_time: u64) -> Result<
    u128,
    ContractError,
> {
    if staked.staked_amount == 0 {
        Err(ContractError::NothingStaked)
    } else if accrued_amount(state, staked, current_time) is None || staked.staked_amount
        > state.total_staked_amount {
        Err(ContractError::Overflow)
    } else {
        Ok(
            settlement_payout(
                accrued_amount(state, staked, current_time)->Some_0,
                state.total_rewards,
            ),
        )
    }
}

/// What a withdrawal that pays `payout` on the way leaves behind.
pub open spec fn withdrawn(
    state: State,
    staked: Staked,
    current_time: u64,
    recipient: String,
    payout: u128,
    state_after: State,
    staked_after: Staked,
    response: Response,
) -> bool {
    &&& state_after == (State {
        total_rewards: (state.total_rewards - payout) as u128,
        total_staked_amount: (state.total_staked_amount - staked.staked_amount) as u128,
        ..state
    })
    &&& staked_after.staked_amount == 0
    &&& staked_after.last_claimed_date is None
    &&& staked_after.last_staked_date is None
    &&& staked_after.staking_weights is Some
    &&& staked_after.weights().len() == 0
    &&& response.history@ == payout_history(payout, current_time).push(
        History { amount: staked.staked_amount, date: current_time, action: Action::Withdraw },
    )
    &&& response.messages@ == payout_messages(payout, recipient).push(
        Transfer::Stake { recipient, amount: staked.staked_amount },
    )
}

/// Hands the participant `info_sender` all the tokens of the position back,
/// after paying what it has accrued up to `current_time` where that is
/// positive and the reserve holds more than it. The pool's total goes down by
/// the position's amount, and the position is left empty with its dates
/// cleared.
///
/// Refuses with `NothingStaked` where the position holds nothing, and with
/// `Overflow` where the amount cannot be computed or the pool's total is less
/// than the position.
pub fn try_withdraw(
    state: &mut State,
    staked: &mut Staked,
    current_time: u64,
    info_sender: &String,
) -> (r: Result<Response, ContractError>)
    ensures
        withdraw_outcome(*old(state), *old(staked), current_time) matches Err(e) ==> r == Err::<
            Response,
            ContractError,
        >(e) && *final(state) == *old(state) && *final(staked) == *old(staked),
        withdraw_outcome(*old(state), *old(staked), current_time) matches Ok(payout) ==> r is Ok
            && withdrawn(
            *old(state),
            *old(staked),
            current_time,
            *info_sender,
            payout,
            *final(state),
            *final(staked),
            r->Ok_0,
        ),
{
    if staked.staked_amount == 0 {
        return Err(ContractError::NothingStaked);
    }
    let accrued = match estimate(state, staked, current_time) {
        Some(accrued) => accrued,
        None => {
            return Err(ContractError::Overflow);
        },
    };
    if staked.staked_amount > state.total_staked_amount {
        return Err(ContractError::Overflow);
    }
    let payout = if 0 < accrued && accrued < state.total_rewards {
        accrued
    } else {
        0
    };
    let amount = staked.staked_amount;
    let mut response = nothing_to_do();
    pay(state, payout, info_sender, current_time, &mut response);
    state.total_staked_amount = state.total_staked_amount - amount;
    *staked = Staked::empty();
    response.history.push(History { amount, date: current_time, action: Action::Withdraw });
    response.messages.push(Transfer::Stake { recipient: info_sender.clone(), amount });
    assert(response.history@ =~= payout_history(payout, current_time).push(
        History { amount, date: current_time, action: Action::Withdraw },
    ));
    assert(response.messages@ =~= payout_messages(payout, *info_sender).push(
        Transfer::Stake { recipient: *info_sender, amount },
    ));
    Ok(response)
}

/// What `try_claim_rewards` answers: what it pays, or why it refuses.
pub open spec fn claim_outcome(state: State, staked: Staked, current_time: u64) -> Result<
    u128,
    ContractError,
> {
    if staked.staked_amount == 0 {
        Err(ContractError::NothingToClaim)
    } else {
        match accrued_amount(state, staked, current_time) {
            None => Err(ContractError::Overflow),
            Some(accrued) => if accrued == 0 {
                Err(ContractError::NothingToClaim)
            } else if accrued > state.total_rewards {
                Err(ContractError::InsufficientReserve)
            } else {
                Ok(accrued)
            },
        }
    }
}

/// What a claim that pays `payout` leaves behind.
pub open spec fn claimed(
    state: State,
    staked: Staked,
    current_time: u64,
    recipient: String,
    payout: u128,
    state_after: State,
    staked_after: Staked,
    response: Response,
) -> bool {
    &&& state_after == (State { total_rewards: (state.total_rewards - payout) as u128, ..state })
    &&& staked_after == (Staked { last_claimed_date: Some(current_time), ..staked })
    &&& response.history@ == payout_history(payout, current_time)
    &&& response.messages@ == payout_messages(payout, recipient)
}

/// Pays the participant `info_sender` what the position has accrued up to
/// `current_time`, and settles the position at that moment.
///
/// Refuses with `NothingToClaim` where the position holds nothing or has
/// accrued nothing, with `Overflow` where the amount cannot be computed, and
/// with `InsufficientReserve` where the reserve holds less than the amount.
pub fn try_claim_rewards(
    state: &mut State,
    staked: &mut Staked,
    current_time: u64,
    info_sender: &String,
) -> (r: Result<Response, ContractError>)
    ensures
        claim_outcome(*old(state), *old(staked), current_time) matches Err(e) ==> r == Err::<
            Response,
            ContractError,
        >(e) && *final(state) == *old(state) && *final(staked) == *old(staked),
        claim_outcome(*old(state), *old(staked), current_time) matches Ok(payout) ==> r is Ok
            && claimed(
            *old(state),
            *old(staked),
            current_time,
            *info_sender,
            payout,
            *final(state),
            *final(staked),
            r->Ok_0,
        ),
{
    if staked.staked_amount == 0 {
        return Err(ContractError::NothingToClaim);
    }
    let accrued = match estimate(state, staked, current_time) {
        Some(accrued) => accrued,
        None => {
            return Err(ContractError::Overflow);
        },
    };
    if accrued == 0 {
        return Err(ContractError::NothingToClaim);
    }
    if accrued > state.total_rewards {
        return Err(ContractError::InsufficientReserve);
    }
    let mut response = nothing_to_do();
    pay(state, accrued, info_sender, current_time, &mut response);
    staked.last_claimed_date = Some(current_time);
    assert(response.history@ =~= payout_history(accrued, current_time));
    assert(response.messages@ =~= payout_messages(accrued, *info_sender));
    Ok(response)
}

/// Replaces the pool's reward stream. Only the owner may, and only while the
/// reserve is empty.
pub fn try_update_reward_contract(
    state: &mut State,
    sender: &String,
    contract: RewardsContractInfo,
) -> (r: Result<Response, ContractError>)
    ensures
        r is Ok <==> sender@ == old(state).owner@ && old(state).total_rewards == 0,
        r matches Ok(response) ==> response.messages@.len() == 0 && response.history@.len() == 0
            && *final(state) == (State { reward_contract: contract, ..*old(state) }),
        r matches Err(e) ==> *final(state) == *old(state),
        r matches Err(e) ==> (e == ContractError::Unauthorized <==> sender@ != old(state).owner@),
        r matches Err(e) ==> e == ContractError::Unauthorized || e
            == ContractError::NonZeroReserve,
{
    if *sender != state.owner {
        return Err(ContractError::Unauthorized);
    }
    if state.total_rewards != 0 {
        return Err(ContractError::NonZeroReserve);
    }
    state.reward_contract = contract;
    Ok(nothing_to_do())
}

/// The one transfer that hands `amount` of the reserve to `recipient`.
pub open spec fn drain_message(recipient: String, amount: u128) -> Seq<Transfer> {
    seq![Transfer::Reward { stream: 0, recipient, amount }]
}

/// Takes the reserve out and hands it to the owner. Only the owner may.
pub fn try_remove_rewards(state: &mut State, sender: &String) -> (r: Result<
    Response,
    ContractError,
>)
    ensures
        r is Ok <==> sender@ == old(state).owner@,
        r matches Ok(response) ==> *final(state) == (State { total_rewards: 0, ..*old(state) })
            && response.history@.len() == 0 && response.messages@ == drain_message(
            *sender,
            old(state).total_rewards,
        ),
        r matches Err(e) ==> e == ContractError::Unauthorized && *final(state) == *old(state),
{
    if *sender != state.owner {
        return Err(ContractError::Unauthorized);
    }
    let mut response = nothing_to_do();
    response.messages.push(
        Transfer::Reward { stream: 0, recipient: sender.clone(), amount: state.total_rewards },
    );
    state.total_rewards = 0;
    assert(response.messages@ =~= seq![
        Transfer::Reward { stream: 0, recipient: *sender, amount: old(state).total_rewards },
    ]);
    Ok(response)
}

/// Pauses or resumes the pool. Only the owner may.
pub fn try_set_active_state(state: &mut State, sender: &String, is_active: bool) -> (r: Result<
    Response,
    ContractError,
>)
    ensures
        r is Ok <==> sender@ == old(state).owner@,
        r matches Ok(response) ==> response.messages@.len() == 0 && response.history@.len() == 0
            && *final(state) == (State { is_active, ..*old(state) }),
        r matches Err(e) ==> e == ContractError::Unauthorized && *final(state) == *old(state),
{
    if *sender != state.owner {
        return Err(ContractError::Unauthorized);
    }
    state.is_active = is_active;
    Ok(nothing_to_do())
}

/// What can be asked of a token pool.
#[derive(Clone, Debug, PartialEq, Eq)]
pub enum ExecuteMsg {
    RevokePermit { permit_name: String },
    Receive { sender: String, from: String, amount: u128, msg: Option<HandleReceiveMsg> },
    WithdrawFunds {  },
    ClaimRewards {  },
    UpdateRewardContract { contract: RewardsContractInfo },
    RemoveRewards {  },
    SetViewingKey { key: String },
    SetActiveState { is_active: bool },
}

/// What a token pool keeps between operations, as far as one operation can
/// touch it: the pool's own state, the owner's viewing key, and the position
/// of the participant whom the operation concerns.
#[derive(Clone, Debug, PartialEq, Eq)]
pub struct Books {
    pub state: State,
    pub admin_key: Option<ViewerInfo>,
    pub staked: Staked,
}

impl ExecuteMsg {
    /// The participant whose position the message concerns: the one whose
    /// tokens have arrived, and else the sender.
    pub open spec fn concerns(&self, sender: String) -> String {
        match self {
            ExecuteMsg::Receive { from, .. } => *from,
            _ => sender,
        }
    }

    /// The participant whose position the message concerns.
    pub fn account(&self, sender: &String) -> (account: String)
        ensures
            account == self.concerns(*sender),
    {
        match self {
            ExecuteMsg::Receive { from, .. } => from.clone(),
            _ => sender.clone(),
        }
    }
}

/// Whether a response asks nothing of the outside world.
pub open spec fn silent(response: Response) -> bool {
    response.messages@.len() == 0 && response.history@.len() == 0
}

/// Whether `answer` and `after` are what the message `msg` from `sender` at
/// `current_time` makes of `before`: the answer and the changes of the one
/// operation that the message names.
pub open spec fn executed(
    before: Books,
    current_time: u64,
    sender: String,
    msg: ExecuteMsg,
    after: Books,
    answer: Result<Response, ContractError>,
) -> bool {
    match msg {
        ExecuteMsg::RevokePermit { permit_name } => answer is Ok && silent(answer->Ok_0) && after
            == before,
        ExecuteMsg::SetViewingKey { key } => after.staked == before.staked && after.state
            == before.state && (if sender@ == before.state.owner@ {
            answer is Ok && silent(answer->Ok_0) && after.admin_key is Some
                && after.admin_key->Some_0.address == sender
                && after.admin_key->Some_0.viewing_key@ == derived_key(key@)
        } else {
            answer == Err::<Response, ContractError>(ContractError::Unauthorized) && after
                == before
        }),
        ExecuteMsg::SetActiveState { is_active } => after.staked == before.staked
            && after.admin_key == before.admin_key && (if sender@ == before.state.owner@ {
            answer is Ok && silent(answer->Ok_0) && after.state == (State {
                is_active,
                ..before.state
            })
        } else {
            answer == Err::<Response, ContractError>(ContractError::Unauthorized) && after
                == before
        }),
        ExecuteMsg::UpdateRewardContract { contract } => after.staked == before.staked
            && after.admin_key == before.admin_key && (if sender@ != before.state.owner@ {
            answer == Err::<Response, ContractError>(ContractError::Unauthorized) && after
                == before
        } else if before.state.total_rewards != 0 {
            answer == Err::<Response, ContractError>(ContractError::NonZeroReserve) && after
                == before
        } else {
            answer is Ok && silent(answer->Ok_0) && after.state == (State {
                reward_contract: contract,
                ..before.state
            })
        }),
        ExecuteMsg::RemoveRewards {  } => after.staked == before.staked && after.admin_key
            == before.admin_key && (if sender@ != before.state.owner@ {
            answer == Err::<Response, ContractError>(ContractError::Unauthorized) && after
                == before
        } else {
            answer is Ok && after.state == (State { total_rewards: 0, ..before.state })
                && answer->Ok_0.history@.len() == 0 && answer->Ok_0.messages@
                == drain_message(sender, before.state.total_rewards)
        }),
        ExecuteMsg::Receive { sender: origin, from, amount, msg } => after.admin_key
            == before.admin_key && (match receive_outcome(
            before.state,
            before.staked,
            current_time,
            sender,
            amount,
            msg,
        ) {
            Ok(payout) => answer is Ok && (msg == Some(HandleReceiveMsg::ReceiveStake {  })
                ==> staked_more(
                before.state,
                before.staked,
                current_time,
                from,
                amount,
                payout,
                after.state,
                after.staked,
                answer->Ok_0,
            )) && (msg == Some(HandleReceiveMsg::ReceiveRewards {  }) ==> funded(
                before.state,
                before.staked,
                amount,
                after.state,
                after.staked,
                answer->Ok_0,
            )),
            Err(e) => answer == Err::<Response, ContractError>(e) && after == before,
        }),
        ExecuteMsg::WithdrawFunds {  } => after.admin_key == before.admin_key
            && (match withdraw_outcome(before.state, before.staked, current_time) {
            Ok(payout) => answer is Ok && withdrawn(
                before.state,
                before.staked,
                current_time,
                sender,
                payout,
                after.state,
                after.staked,
                answer->Ok_0,
            ),
            Err(e) => answer == Err::<Response, ContractError>(e) && after == before,
        }),
        ExecuteMsg::ClaimRewards {  } => after.admin_key == before.admin_key
            && (match claim_outcome(before.state, before.staked, current_time) {
            Ok(payout) => answer is Ok && claimed(
                before.state,
                before.staked,
                current_time,
                sender,
                payout,
                after.state,
                after.staked,
                answer->Ok_0,
            ),
            Err(e) => answer == Err::<Response, ContractError>(e) && after == before,
        }),
    }
}

/// Carries out what the message `msg` from `sender` asks at `current_time`.
///
/// `books` holds the pool's state and the position that the message
/// concerns (see `ExecuteMsg::account`). Each message names one operation,
/// and the answer and the changes are those of that operation. Revoking a
/// permit changes nothing that the books hold. A refused message leaves the
/// books as they were.
pub fn execute(books: &mut Books, current_time: u64, sender: &String, msg: ExecuteMsg) -> (r:
    Result<Response, ContractError>)
    ensures
        executed(*old(books), current_time, *sender, msg, *final(books), r),
{
    match msg {
        ExecuteMsg::RevokePermit { permit_name } => Ok(nothing_to_do()),
        ExecuteMsg::UpdateRewardContract { contract } => try_update_reward_contract(
            &mut books.state,
            sender,
            contract,
        ),
        ExecuteMsg::RemoveRewards {  } => try_remove_rewards(&mut books.state, sender),
        ExecuteMsg::Receive { sender: origin, from, amount, msg } => receive(
            &mut books.state,
            &mut books.staked,
            current_time,
            sender,
            &origin,
            &from,
            amount,
            msg,
        ),
        ExecuteMsg::WithdrawFunds {  } => try_withdraw(
            &mut books.state,
            &mut books.staked,
            current_time,
            sender,
        ),
        ExecuteMsg::ClaimRewards {  } => try_claim_rewards(
            &mut books.state,
            &mut books.staked,
            current_time,
            sender,
        ),
        ExecuteMsg::SetViewingKey { key } => {
            match try_set_viewing_key(&books.state.owner, &mut books.admin_key, sender, key) {
                Ok(_) => Ok(nothing_to_do()),
                Err(e) => Err(e),
            }
        },
        ExecuteMsg::SetActiveState { is_active } => try_set_active_state(
            &mut books.state,
            sender,
            is_active,
        ),
    }
}

/// Sets up a token pool for the owner `sender`: active, without collateral
/// and without a reserve, with the viewing key derived from `entropy`.
pub fn instantiate(
    sender: String,
    entropy: String,
    staking_contract: ContractInfo,
    reward_contract: RewardsContractInfo,
) -> (state: State)
    ensures
        state.owner == sender,
        state.is_active,
        state.staking_contract == staking_contract,
        state.reward_contract == reward_contract,
        state.viewing_key is Some,
        state.viewing_key->Some_0@ == derived_key(entropy@),
        state.total_staked_amount == 0,
        state.total_rewards == 0,
{
    let key = crate::viewing_key::viewing_key(&entropy);
    State {
        viewing_key: Some(key),
        owner: sender,
        staking_contract,
        reward_contract,
        total_staked_amount: 0,
        total_rewards: 0,
        is_active: true,
    }
}

} // verus!
