//! Paying accrued rewards out of the streams' reserves.
//!
//! A settlement pays each stream's amount in full or not at all. It lowers the
//! stream's reserve, records the claim in the participant's history and emits
//! the transfer.

use crate::msg::{Action, EstimatedReward, History, Response, RewardsContractInfo, Transfer};
use crate::state::State;
use vstd::prelude::*;

verus! {

/// What a deposit or a withdrawal pays of an estimate on the way: all of it
/// where it is positive and the reserve holds more than it, else nothing.
pub open spec fn settlement_payout(estimate: u128, reserve: u128) -> u128 {
    if 0 < estimate < reserve {
        estimate
    } else {
        0
    }
}

/// What a deposit or a withdrawal pays from each stream.
pub open spec fn settlement_payouts(
    pools: Seq<RewardsContractInfo>,
    rewards: Seq<EstimatedReward>,
) -> Seq<u128> {
    Seq::new(
        pools.len(),
        |i: int| settlement_payout(rewards[i].estimated_rewards, pools[i].total_rewards),
    )
}

/// What a claim pays from each stream: the whole estimate.
pub open spec fn claim_payouts(rewards: Seq<EstimatedReward>) -> Seq<u128> {
    Seq::new(rewards.len(), |i: int| rewards[i].estimated_rewards)
}

/// Whether every reserve holds what is to be paid from it.
pub open spec fn covered(pools: Seq<RewardsContractInfo>, payouts: Seq<u128>) -> bool {
    &&& payouts.len() == pools.len()
    &&& forall|i: int| 0 <= i < pools.len() ==> payouts[i] <= (#[trigger] pools[i]).total_rewards
}

/// A stream after `payout` has left its reserve.
pub open spec fn drawn(pool: RewardsContractInfo, payout: u128) -> RewardsContractInfo {
    RewardsContractInfo { total_rewards: (pool.total_rewards - payout) as u128, ..pool }
}

/// The streams after the payouts have left their reserves.
pub open spec fn paid_out(pools: Seq<RewardsContractInfo>, payouts: Seq<u128>) -> Seq<
    RewardsContractInfo,
> {
    Seq::new(pools.len(), |i: int| drawn(pools[i], payouts[i]))
}

/// Whether anything is paid at all.
pub open spec fn any_paid(payouts: Seq<u128>) -> bool {
    exists|i: int| 0 <= i < payouts.len() && #[trigger] payouts[i] > 0
}

/// The history records of the first `count` streams' payouts: one claim for
/// each stream that pays, in the streams' order.
pub open spec fn claim_history(payouts: Seq<u128>, date: u64, count: nat) -> Seq<History>
    decreases count,
{
    if count == 0 {
        Seq::empty()
    } else {
        let earlier = claim_history(payouts, date, (count - 1) as nat);
        if payouts[count - 1] > 0 {
            earlier.push(History { amount: payouts[count - 1], date, action: Action::Claim })
        } else {
            earlier
        }
    }
}

/// The transfers of the first `count` streams' payouts: one for each stream
/// that pays, in the streams' order.
pub open spec fn reward_messages(payouts: Seq<u128>, recipient: String, count: nat) -> Seq<
    Transfer,
>
    decreases count,
{
    if count == 0 {
        Seq::empty()
    } else {
        let earlier = reward_messages(payouts, recipient, (count - 1) as nat);
        if payouts[count - 1] > 0 {
            earlier.push(
                Transfer::Reward {
                    stream: (count - 1) as usize,
                    recipient,
                    amount: payouts[count - 1],
                },
            )
        } else {
            earlier
        }
    }
}

/// Works out what a deposit or a withdrawal pays from each stream.
pub(crate) fn payouts_on_the_way(state: &State, rewards: &Vec<EstimatedReward>) -> (payouts: Vec<
    u128,
>)
    requires
        rewards@.len() == state.reward_contracts@.len(),
    ensures
        payouts@ == settlement_payouts(state.reward_contracts@, rewards@),
        covered(state.reward_contracts@, payouts@),
{
    let mut payouts: Vec<u128> = Vec::new();
    let mut i: usize = 0;
    while i < rewards.len()
        invariant
            i <= rewards@.len(),
            rewards@.len() == state.reward_contracts@.len(),
            payouts@.len() == i,
            forall|j: int|
                0 <= j < i ==> payouts@[j] == settlement_payout(
                    rewards@[j].estimated_rewards,
                    state.reward_contracts@[j].total_rewards,
                ),
        decreases rewards@.len() - i,
    {
        let estimate = rewards[i].estimated_rewards;
        if 0 < estimate && estimate < state.reward_contracts[i].total_rewards {
            payouts.push(estimate);
        } else {
            payouts.push(0);
        }
        i = i + 1;
    }
    assert(payouts@ =~= settlement_payouts(state.reward_contracts@, rewards@));
    payouts
}

/// Tells whether anything is paid at all.
pub(crate) fn pays_anything(payouts: &Vec<u128>) -> (r: bool)
    ensures
        r == any_paid(payouts@),
{
    let mut i: usize = 0;
    while i < payouts.len()
        invariant
            i <= payouts@.len(),
            forall|j: int| 0 <= j < i ==> payouts@[j] == 0,
        decreases payouts@.len() - i,
    {
        if payouts[i] > 0 {
            return true;
        }
        i = i + 1;
    }
    false
}

/// Takes the payouts out of the reserves, and adds a claim record and a
/// transfer to `recipient` for each stream that pays.
pub(crate) fn pay_out(
    state: &mut State,
    payouts: &Vec<u128>,
    recipient: &String,
    date: u64,
    response: &mut Response,
)
    requires
        covered(old(state).reward_contracts@, payouts@),
    ensures
        *final(state) == (State {
            reward_contracts: final(state).reward_contracts,
            ..*old(state)
        }),
        final(state).reward_contracts@ == paid_out(old(state).reward_contracts@, payouts@),
        final(response).history@ == old(response).history@ + claim_history(
            payouts@,
            date,
            payouts@.len(),
        ),
        final(response).messages@ == old(response).messages@ + reward_messages(
            payouts@,
            *recipient,
            payouts@.len(),
        ),
{
    let mut i: usize = 0;
    while i < payouts.len()
        invariant
            i <= payouts@.len(),
            covered(old(state).reward_contracts@, payouts@),
            *state == (State { reward_contracts: state.reward_contracts, ..*old(state) }),
            state.reward_contracts@.len() == payouts@.len(),
            forall|j: int|
                0 <= j < i ==> state.reward_contracts@[j] == drawn(
                    old(state).reward_contracts@[j],
                    payouts@[j],
                ),
            forall|j: int|
                i <= j < payouts@.len() ==> state.reward_contracts@[j]
                    == old(state).reward_contracts@[j],
            response.history@ == old(response).history@ + claim_history(payouts@, date, i as nat),
            response.messages@ == old(response).messages@ + reward_messages(
                payouts@,
                *recipient,
                i as nat,
            ),
        decreases payouts@.len() - i,
    {
        let amount = payouts[i];
        assert(old(state).reward_contracts@[i as int].total_rewards >= amount);
        state.reward_contracts[i].total_rewards = state.reward_contracts[i].total_rewards - amount;
        if amount > 0 {
            response.history.push(History { amount, date, action: Action::Claim });
            response.messages.push(
                Transfer::Reward { stream: i, recipient: recipient.clone(), amount },
            );
        }
        i = i + 1;
    }
    assert(state.reward_contracts@ =~= paid_out(old(state).reward_contracts@, payouts@));
}

} // verus!
