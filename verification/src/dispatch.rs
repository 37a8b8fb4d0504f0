//! One entry point for everything that can be asked of a pool.

use crate::contract::{
    claim_outcome, claimed, funded, nothing_to_do, receive, receive_outcome, reserves_empty,
    silent, try_claim_rewards, try_remove_rewards, try_set_active_state,
    try_update_reward_contract, drain_messages, drained,
};
use crate::deposit::{batch_receive_refusal, deposit_outcome, deposited, try_batch_receive};
use crate::error::ContractError;
use crate::msg::{ExecuteMsg, Response, RewardsContractInfo, Staked, Trait, ViewerInfo};
use crate::state::State;
use crate::traits::added_weights;
use crate::viewing_key::{derived_key, try_set_viewing_key};
use crate::withdraw::{
    eject_outcome, quantity_withdrawn, taken_out, try_eject, try_withdraw,
    try_withdraw_no_reward, try_withdraw_with_quantity, withdraw_no_reward_outcome,
    withdraw_outcome, withdraw_quantity_outcome, withdrawn,
};
use vstd::prelude::*;

verus! {

/// What a pool keeps between operations, as far as one operation can touch
/// it: the pool's own state, the owner's viewing key, and the position of
/// the participant whom the operation concerns, with the items it holds.
#[derive(Clone, Debug, PartialEq, Eq)]
pub struct Books {
    pub state: State,
    pub admin_key: Option<ViewerInfo>,
    pub staked: Staked,
    pub staked_nfts: Vec<String>,
}

impl ExecuteMsg {
    /// The participant whose position the message concerns: the one who is
    /// ejected, the one whose items have arrived, and else the sender.
    pub open spec fn concerns(&self, sender: String) -> String {
        match self {
            ExecuteMsg::Eject { staker } => *staker,
            ExecuteMsg::BatchReceiveNft { from, .. } => *from,
            _ => sender,
        }
    }

    /// The participant whose position the message concerns.
    pub fn account(&self, sender: &String) -> (account: String)
        ensures
            account == self.concerns(*sender),
    {
        match self {
            ExecuteMsg::Eject { staker } => staker.clone(),
            ExecuteMsg::BatchReceiveNft { from, .. } => from.clone(),
            _ => sender.clone(),
        }
    }
}

/// Whether the operation has left position and items as they were.
pub open spec fn position_kept(before: Books, after: Books) -> bool {
    after.staked == before.staked && after.staked_nfts == before.staked_nfts
}

/// Whether `answer` and `after` are what the message `msg` from `sender` at
/// `current_time` makes of `before`: the answer and the changes of the one
/// operation that the message names.
pub open spec fn executed(
    before: Books,
    current_time: u64,
    sender: String,
    msg: ExecuteMsg,
    metadata: Seq<Vec<Trait>>,
    after: Books,
    answer: Result<Response, ContractError>,
) -> bool {
    match msg {
        ExecuteMsg::RevokePermit { permit_name } => answer is Ok && silent(answer->Ok_0) && after
            == before,
        ExecuteMsg::SetViewingKey { key } => position_kept(before, after) && after.state
            == before.state && (if sender@ == before.state.owner@ {
            answer is Ok && silent(answer->Ok_0) && after.admin_key is Some
                && after.admin_key->Some_0.address == sender
                && after.admin_key->Some_0.viewing_key@ == derived_key(key@)
        } else {
            answer == Err::<Response, ContractError>(ContractError::Unauthorized) && after
                == before
        }),
        ExecuteMsg::SetActiveState { is_active } => position_kept(before, after)
            && after.admin_key == before.admin_key && (if sender@ == before.state.owner@ {
            answer is Ok && silent(answer->Ok_0) && after.state == (State {
                is_active,
                ..before.state
            })
        } else {
            answer == Err::<Response, ContractError>(ContractError::Unauthorized) && after
                == before
        }),
        ExecuteMsg::UpdateRewardContract { contracts } => position_kept(before, after)
            && after.admin_key == before.admin_key && (if sender@ != before.state.owner@ {
            answer == Err::<Response, ContractError>(ContractError::Unauthorized) && after
                == before
        } else if !reserves_empty(before.state.reward_contracts@) {
            answer == Err::<Response, ContractError>(ContractError::NonZeroReserve) && after
                == before
        } else {
            answer is Ok && silent(answer->Ok_0) && after.state == (State {
                reward_contracts: contracts,
                ..before.state
            })
        }),
        ExecuteMsg::RemoveRewards {  } => position_kept(before, after) && after.admin_key
            == before.admin_key && (if sender@ != before.state.owner@ {
            answer == Err::<Response, ContractError>(ContractError::Unauthorized) && after
                == before
        } else {
            answer is Ok && after.state == (State {
                reward_contracts: after.state.reward_contracts,
                ..before.state
            }) && after.state.reward_contracts@ == before.state.reward_contracts@.map_values(
                |pool: RewardsContractInfo| drained(pool),
            ) && answer->Ok_0.history@.len() == 0 && answer->Ok_0.messages@ == drain_messages(
                before.state.reward_contracts@,
                sender,
                before.state.reward_contracts@.len(),
            )
        }),
        ExecuteMsg::Receive { sender: origin, from, amount, msg } => position_kept(before, after)
            && after.admin_key == before.admin_key && (match receive_outcome(
            before.state,
            sender,
            amount,
            msg,
        ) {
            Ok(stream) => answer is Ok && silent(answer->Ok_0) && after.state == (State {
                reward_contracts: after.state.reward_contracts,
                ..before.state
            }) && after.state.reward_contracts@ == before.state.reward_contracts@.update(
                stream,
                funded(before.state.reward_contracts@[stream], amount),
            ),
            Err(e) => answer == Err::<Response, ContractError>(e) && after == before,
        }),
        ExecuteMsg::BatchReceiveNft { from, token_ids } => after.admin_key == before.admin_key
            && (match batch_receive_refusal(before.state, sender, token_ids@.len(), metadata) {
            Some(e) => answer == Err::<Response, ContractError>(e) && after == before,
            None => match deposit_outcome(
                before.state,
                before.staked,
                current_time,
                token_ids@.len(),
                added_weights(before.state, metadata, token_ids@.len()),
            ) {
                Ok(payouts) => answer is Ok && deposited(
                    before.state,
                    before.staked,
                    before.staked_nfts@,
                    current_time,
                    from,
                    token_ids@,
                    added_weights(before.state, metadata, token_ids@.len()),
                    payouts,
                    after.state,
                    after.staked,
                    after.staked_nfts@,
                    answer->Ok_0,
                ),
                Err(e) => answer == Err::<Response, ContractError>(e) && after == before,
            },
        }),
        ExecuteMsg::WithdrawFunds {  } => after.admin_key == before.admin_key
            && (match withdraw_outcome(
            before.state,
            before.staked,
            before.staked_nfts@,
            current_time,
        ) {
            Ok(payouts) => answer is Ok && withdrawn(
                before.state,
                before.staked,
                before.staked_nfts@,
                current_time,
                sender,
                payouts,
                after.state,
                after.staked,
                after.staked_nfts@,
                answer->Ok_0,
            ),
            Err(e) => answer == Err::<Response, ContractError>(e) && after == before,
        }),
        ExecuteMsg::WithdrawFundsWithQuantity { quantity } => after.admin_key
            == before.admin_key && (match withdraw_quantity_outcome(
            before.state,
            before.staked,
            before.staked_nfts@,
            current_time,
            quantity,
        ) {
            Ok(payouts) => answer is Ok && quantity_withdrawn(
                before.state,
                before.staked,
                before.staked_nfts@,
                current_time,
                sender,
                quantity,
                payouts,
                after.state,
                after.staked,
                after.staked_nfts@,
                answer->Ok_0,
            ),
            Err(e) => answer == Err::<Response, ContractError>(e) && after == before,
        }),
        ExecuteMsg::WithdrawFundsNoReward {  } => after.admin_key == before.admin_key
            && (match withdraw_no_reward_outcome(
            before.state,
            before.staked,
            before.staked_nfts@,
        ) {
            Ok(_) => answer is Ok && taken_out(
                before.state,
                before.staked,
                before.staked_nfts@,
                current_time,
                sender,
                before.staked.staked_amount,
                after.state,
                after.staked,
                after.staked_nfts@,
                answer->Ok_0,
            ),
            Err(e) => answer == Err::<Response, ContractError>(e) && after == before,
        }),
        ExecuteMsg::Eject { staker } => after.admin_key == before.admin_key
            && (match eject_outcome(before.state, before.staked, before.staked_nfts@, sender) {
            Ok(_) => answer is Ok && taken_out(
                before.state,
                before.staked,
                before.staked_nfts@,
                current_time,
                staker,
                before.staked_nfts@.len() as u128,
                after.state,
                after.staked,
                after.staked_nfts@,
                answer->Ok_0,
            ),
            Err(e) => answer == Err::<Response, ContractError>(e) && after == before,
        }),
        ExecuteMsg::ClaimRewards {  } => after.admin_key == before.admin_key
            && after.staked_nfts == before.staked_nfts && (match claim_outcome(
            before.state,
            before.staked,
            current_time,
        ) {
            Ok(payouts) => answer is Ok && claimed(
                before.state,
                before.staked,
                current_time,
                sender,
                payouts,
                after.state,
                after.staked,
                answer->Ok_0,
            ),
            Err(e) => answer == Err::<Response, ContractError>(e) && after == before,
        }),
    }
}

/// Carries out what the message `msg` from `sender` asks at `current_time`.
///
/// `books` holds the pool's state and the position that the message
/// concerns (see `ExecuteMsg::account`); `metadata` holds the attributes of
/// the items that a `BatchReceiveNft` message brings, in the items' order.
/// Each message names one operation, and the answer and the changes are
/// those of that operation. Revoking a permit changes nothing that the books
/// hold. A refused message leaves the books as they were.
pub fn execute(
    books: &mut Books,
    current_time: u64,
    sender: &String,
    msg: ExecuteMsg,
    metadata: &Vec<Vec<Trait>>,
) -> (r: Result<Response, ContractError>)
    ensures
        executed(*old(books), current_time, *sender, msg, metadata@, *final(books), r),
{
    match msg {
        ExecuteMsg::RevokePermit { permit_name } => Ok(nothing_to_do()),
        ExecuteMsg::UpdateRewardContract { contracts } => try_update_reward_contract(
            &mut books.state,
            sender,
            contracts,
        ),
        ExecuteMsg::RemoveRewards {  } => try_remove_rewards(&mut books.state, sender),
        ExecuteMsg::BatchReceiveNft { from, token_ids } => try_batch_receive(
            &mut books.state,
            &mut books.staked,
            &mut books.staked_nfts,
            current_time,
            sender,
            &from,
            token_ids,
            metadata,
        ),
        ExecuteMsg::Receive { sender: origin, from, amount, msg } => receive(
            &mut books.state,
            sender,
            &origin,
            &from,
            amount,
            msg,
        ),
        ExecuteMsg::WithdrawFunds {  } => try_withdraw(
            &mut books.state,
            &mut books.staked,
            &mut books.staked_nfts,
            current_time,
            sender,
        ),
        ExecuteMsg::WithdrawFundsWithQuantity { quantity } => try_withdraw_with_quantity(
            &mut books.state,
            &mut books.staked,
            &mut books.staked_nfts,
            current_time,
            sender,
            quantity,
        ),
        ExecuteMsg::WithdrawFundsNoReward {  } => try_withdraw_no_reward(
            &mut books.state,
            &mut books.staked,
            &mut books.staked_nfts,
            current_time,
            sender,
        ),
        ExecuteMsg::ClaimRewards {  } => try_claim_rewards(
            &mut books.state,
            &mut books.staked,
            current_time,
            sender,
        ),
        ExecuteMsg::SetViewingKey { key } => {
            match try_set_viewing_key(&books.state.owner, &mut books.admin_key, sender, key) {
                Ok(_) => Ok(nothing_to_do()),
                Err(e) => Err(e),
            }
        },
        ExecuteMsg::SetActiveState { is_active } => try_set_active_state(
            &mut books.state,
            sender,
            is_active,
        ),
        ExecuteMsg::Eject { staker } => try_eject(
            &mut books.state,
            &mut books.staked,
            &mut books.staked_nfts,
            current_time,
            sender,
            &staker,
        ),
    }
}

} // verus!
