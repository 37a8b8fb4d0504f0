//! The registry of pools: a list that its owner keeps, with no pool listed
//! twice under one address.

use crate::error::ContractError;
use crate::msg::ContractInfo;
use vstd::prelude::*;

verus! {

/// What the registry knows.
#[derive(Clone, Debug, PartialEq, Eq)]
pub struct State {
    pub owner: String,
    pub is_active: bool,
    pub staking_contracts: Vec<ContractInfo>,
}

/// The one query that the registry sends to each pool it lists.
#[derive(Clone, Copy, Debug, PartialEq, Eq, Structural)]
pub enum StakedInfoQueryMsg {
    GetStakedInfo {  },
}

/// The index of the first listed pool at or after `from` that has the given
/// address; the length of the list where there is none.
pub open spec fn listed_from(contracts: Seq<ContractInfo>, address: Seq<char>, from: int) -> int
    decreases contracts.len() - from,
{
    if from < 0 || from >= contracts.len() {
        contracts.len() as int
    } else if contracts[from].address@ == address {
        from
    } else {
        listed_from(contracts, address, from + 1)
    }
}

/// The index of the first listed pool that has the given address; the length
/// of the list where there is none.
pub open spec fn listed_at(contracts: Seq<ContractInfo>, address: Seq<char>) -> int {
    listed_from(contracts, address, 0)
}

/// Whether a pool with the given address is listed.
pub open spec fn is_listed(contracts: Seq<ContractInfo>, address: Seq<char>) -> bool {
    listed_at(contracts, address) < contracts.len()
}

/// Finds the first listed pool that has the given address.
fn find_contract(contracts: &Vec<ContractInfo>, address: &String) -> (r: Option<usize>)
    ensures
        r matches Some(i) ==> i < contracts@.len() && i == listed_at(contracts@, address@),
        r is None ==> !is_listed(contracts@, address@),
{
    let mut i: usize = 0;
    while i < contracts.len()
        invariant
            i <= contracts@.len(),
            listed_at(contracts@, address@) == listed_from(contracts@, address@, i as int),
        decreases contracts@.len() - i,
    {
        if contracts[i].address == *address {
            return Some(i);
        }
        i = i + 1;
    }
    None
}

/// Sets up a registry for the owner `sender`: active, with the given pools.
pub fn instantiate(sender: String, staking_contracts: Vec<ContractInfo>) -> (state: State)
    ensures
        state.owner == sender,
        state.is_active,
        state.staking_contracts == staking_contracts,
{
    State { owner: sender, staking_contracts, is_active: true }
}

/// Adds a pool to the end of the list. Only the owner may, and only a pool
/// whose address is not listed yet.
pub fn try_add_contract(state: &mut State, sender: &String, contract: ContractInfo) -> (r:
    Result<(), ContractError>)
    ensures
        r is Ok <==> sender@ == old(state).owner@ && !is_listed(
            old(state).staking_contracts@,
            contract.address@,
        ),
        r is Ok ==> *final(state) == (State {
            staking_contracts: final(state).staking_contracts,
            ..*old(state)
        }) && final(state).staking_contracts@ == old(state).staking_contracts@.push(contract),
        r matches Err(e) ==> *final(state) == *old(state),
        r matches Err(e) ==> (e == ContractError::Unauthorized <==> sender@ != old(state).owner@),
        r matches Err(e) ==> e == ContractError::Unauthorized || e
            == ContractError::ContractExists,
{
    if *sender != state.owner {
        return Err(ContractError::Unauthorized);
    }
    if find_contract(&state.staking_contracts, &contract.address).is_some() {
        return Err(ContractError::ContractExists);
    }
    state.staking_contracts.push(contract);
    Ok(())
}

/// Takes the first pool with the address of `contract` off the list; the
/// pools behind it move up. Only the owner may, and only a pool that is
/// listed.
pub fn try_remove_contract(state: &mut State, sender: &String, contract: ContractInfo) -> (r:
    Result<(), ContractError>)
    ensures
        r is Ok <==> sender@ == old(state).owner@ && is_listed(
            old(state).staking_contracts@,
            contract.address@,
        ),
        r is Ok ==> *final(state) == (State {
            staking_contracts: final(state).staking_contracts,
            ..*old(state)
        }) && final(state).staking_contracts@ == old(state).staking_contracts@.remove(
            listed_at(old(state).staking_contracts@, contract.address@),
        ),
        r matches Err(e) ==> *final(state) == *old(state),
        r matches Err(e) ==> (e == ContractError::Unauthorized <==> sender@ != old(state).owner@),
        r matches Err(e) ==> e == ContractError::Unauthorized || e
            == ContractError::ContractMissing,
{
    if *sender != state.owner {
        return Err(ContractError::Unauthorized);
    }
    match find_contract(&state.staking_contracts, &contract.address) {
        Some(position) => {
            state.staking_contracts.remove(position);
            Ok(())
        },
        None => Err(ContractError::ContractMissing),
    }
}

/// Pauses or resumes the registry. Only the owner may.
pub fn try_set_active_state(state: &mut State, sender: &String, is_active: bool) -> (r:
    Result<(), ContractError>)
    ensures
        r is Ok <==> sender@ == old(state).owner@,
        r is Ok ==> *final(state) == (State { is_active, ..*old(state) }),
        r matches Err(e) ==> e == ContractError::Unauthorized && *final(state) == *old(state),
{
    if *sender != state.owner {
        return Err(ContractError::Unauthorized);
    }
    state.is_active = is_active;
    Ok(())
}

/// Lists the pools.
pub fn query_contracts(state: State) -> (contracts: Vec<ContractInfo>)
    ensures
        contracts == state.staking_contracts,
{
    state.staking_contracts
}

/// What can be asked of the registry.
#[derive(Clone, Debug, PartialEq, Eq)]
pub enum ExecuteMsg {
    AddContract { contract: ContractInfo },
    RemoveContract { contract: ContractInfo },
    SetActiveState { is_active: bool },
}

/// Whether `answer` and `after` are what the message `msg` from `sender`
/// makes of `before`.
pub open spec fn executed(
    before: State,
    sender: String,
    msg: ExecuteMsg,
    after: State,
    answer: Result<(), ContractError>,
) -> bool {
    if sender@ != before.owner@ {
        answer == Err::<(), ContractError>(ContractError::Unauthorized) && after == before
    } else {
        match msg {
            ExecuteMsg::AddContract { contract } => if is_listed(
                before.staking_contracts@,
                contract.address@,
            ) {
                answer == Err::<(), ContractError>(ContractError::ContractExists) && after
                    == before
            } else {
                answer is Ok && after == (State {
                    staking_contracts: after.staking_contracts,
                    ..before
                }) && after.staking_contracts@ == before.staking_contracts@.push(contract)
            },
            ExecuteMsg::RemoveContract { contract } => if !is_listed(
                before.staking_contracts@,
                contract.address@,
            ) {
                answer == Err::<(), ContractError>(ContractError::ContractMissing) && after
                    == before
            } else {
                answer is Ok && after == (State {
                    staking_contracts: after.staking_contracts,
                    ..before
                }) && after.staking_contracts@ == before.staking_contracts@.remove(
                    listed_at(before.staking_contracts@, contract.address@),
                )
            },
            ExecuteMsg::SetActiveState { is_active } => answer is Ok && after == (State {
                is_active,
                ..before
            }),
        }
    }
}

/// Carries out what the message `msg` from `sender` asks. Every message is
/// for the owner alone; a refused message changes nothing.
pub fn execute(state: &mut State, sender: &String, msg: ExecuteMsg) -> (r: Result<
    (),
    ContractError,
>)
    ensures
        executed(*old(state), *sender, msg, *final(state), r),
{
    match msg {
        ExecuteMsg::AddContract { contract } => try_add_contract(state, sender, contract),
        ExecuteMsg::RemoveContract { contract } => try_remove_contract(state, sender, contract),
        ExecuteMsg::SetActiveState { is_active } => try_set_active_state(state, sender, is_active),
    }
}

} // verus!
