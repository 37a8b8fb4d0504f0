//! The operations of a pool.
//!
//! Every operation either commits all of its changes or refuses and changes
//! nothing. What a successful operation asks of the outside world (transfers to
//! emit, history records to append) comes back in its `Response`.

use crate::error::ContractError;
use crate::msg::{
    EstimatedReward, HandleReceiveMsg, InstantiateMsg, MyStakedInfoResponse, Response,
    RewardsContractInfo, Staked, StakedInfoResponse, Transfer,
};
use crate::rewards::{estimable, estimates, get_estimated_rewards};
use crate::settle::{claim_history, claim_payouts, covered, paid_out, pay_out, reward_messages};
use crate::viewing_key::{derived_key, viewing_key};
use crate::state::State;
use vstd::prelude::*;

verus! {

/// The index of the first stream at or after `from` that is funded from
/// `address`; the number of streams where there is none.
pub open spec fn stream_from(pools: Seq<RewardsContractInfo>, address: Seq<char>, from: int) -> int
    decreases pools.len() - from,
{
    if from < 0 || from >= pools.len() {
        pools.len() as int
    } else if pools[from].address@ == address {
        from
    } else {
        stream_from(pools, address, from + 1)
    }
}

/// The index of the first stream that is funded from `address`; the number of
/// streams where there is none.
pub open spec fn stream_of(pools: Seq<RewardsContractInfo>, address: Seq<char>) -> int {
    stream_from(pools, address, 0)
}

/// A stream after `amount` has been added to its reserve.
pub open spec fn funded(pool: RewardsContractInfo, amount: u128) -> RewardsContractInfo {
    RewardsContractInfo { total_rewards: (pool.total_rewards + amount) as u128, ..pool }
}

/// A stream after its reserve has been taken out.
pub open spec fn drained(pool: RewardsContractInfo) -> RewardsContractInfo {
    RewardsContractInfo { total_rewards: 0, ..pool }
}

/// Whether every stream's reserve is empty.
pub open spec fn reserves_empty(pools: Seq<RewardsContractInfo>) -> bool {
    forall|i: int| 0 <= i < pools.len() ==> (#[trigger] pools[i]).total_rewards == 0
}

/// The transfers that hand the first `count` reserves to `recipient`.
pub open spec fn drain_messages(
    pools: Seq<RewardsContractInfo>,
    recipient: String,
    count: nat,
) -> Seq<Transfer>
    decreases count,
{
    if count == 0 {
        Seq::empty()
    } else {
        drain_messages(pools, recipient, (count - 1) as nat).push(
            Transfer::Reward {
                stream: (count - 1) as usize,
                recipient,
                amount: pools[count - 1].total_rewards,
            },
        )
    }
}

/// Whether a response asks nothing of the outside world.
pub open spec fn silent(response: Response) -> bool {
    response.messages@.len() == 0 && response.history@.len() == 0
}

/// A response that asks nothing of the outside world.
pub(crate) fn nothing_to_do() -> (response: Response)
    ensures
        silent(response),
{
    Response { messages: Vec::new(), history: Vec::new() }
}

impl RewardsContractInfo {
    /// Empties the reserve and hands back what it held.
    pub fn drain(&mut self) -> (held: u128)
        ensures
            held == old(self).total_rewards,
            *final(self) == drained(*old(self)),
    {
        let held = self.total_rewards;
        self.total_rewards = 0;
        held
    }
}

/// Finds the first stream that is funded from `address`.
fn find_stream(pools: &Vec<RewardsContractInfo>, address: &String) -> (r: Option<usize>)
    ensures
        r matches Some(i) ==> i < pools@.len() && i == stream_of(pools@, address@),
        r is None ==> stream_of(pools@, address@) == pools@.len(),
{
    let mut i: usize = 0;
    while i < pools.len()
        invariant
            i <= pools@.len(),
            stream_of(pools@, address@) == stream_from(pools@, address@, i as int),
        decreases pools@.len() - i,
    {
        if pools[i].address == *address {
            return Some(i);
        }
        i = i + 1;
    }
    None
}

/// Pauses or resumes the pool. Only the owner may.
pub fn try_set_active_state(state: &mut State, sender: &String, is_active: bool) -> (r: Result<
    Response,
    ContractError,
>)
    ensures
        r is Ok <==> sender@ == old(state).owner@,
        r matches Ok(response) ==> silent(response) && *final(state) == (State {
            is_active,
            ..*old(state)
        }),
        r matches Err(e) ==> e == ContractError::Unauthorized && *final(state) == *old(state),
{
    if *sender != state.owner {
        return Err(ContractError::Unauthorized);
    }
    state.is_active = is_active;
    Ok(nothing_to_do())
}

/// Restricts deposits to items that carry the given trait, or lifts the
/// restriction. Only the owner may.
pub fn try_set_trait_restriction(
    state: &mut State,
    sender: &String,
    trait_restriction: Option<String>,
) -> (r: Result<Response, ContractError>)
    ensures
        r is Ok <==> sender@ == old(state).owner@,
        r matches Ok(response) ==> silent(response) && *final(state) == (State {
            trait_restriction,
            ..*old(state)
        }),
        r matches Err(e) ==> e == ContractError::Unauthorized && *final(state) == *old(state),
{
    if *sender != state.owner {
        return Err(ContractError::Unauthorized);
    }
    state.trait_restriction = trait_restriction;
    Ok(nothing_to_do())
}

/// What `receive` answers to a funding notice.
pub open spec fn receive_outcome(
    state: State,
    info_sender: String,
    amount: u128,
    msg: Option<HandleReceiveMsg>,
) -> Result<int, ContractError> {
    let stream = stream_of(state.reward_contracts@, info_sender@);
    if msg is None {
        Err(ContractError::MissingPayload)
    } else if stream == state.reward_contracts@.len() {
        Err(ContractError::UnknownStream)
    } else if state.reward_contracts@[stream].total_rewards + amount > u128::MAX {
        Err(ContractError::Overflow)
    } else {
        Ok(stream)
    }
}

/// Takes notice that `amount` reward units have arrived from the contract
/// `info_sender`, and adds them to the reserve of the first stream that this
/// contract funds.
///
/// Refuses with `MissingPayload` where the notice carries no payload, with
/// `UnknownStream` where no stream is funded from `info_sender`, and with
/// `Overflow` where the reserve would leave the 128-bit range.
pub fn receive(
    state: &mut State,
    info_sender: &String,
    sender: &String,
    from: &String,
    amount: u128,
    msg: Option<HandleReceiveMsg>,
) -> (r: Result<Response, ContractError>)
    ensures
        receive_outcome(*old(state), *info_sender, amount, msg) matches Ok(stream) ==> r is Ok
            && silent(r->Ok_0) && *final(state) == (State {
            reward_contracts: final(state).reward_contracts,
            ..*old(state)
        }) && final(state).reward_contracts@ == old(state).reward_contracts@.update(
            stream,
            funded(old(state).reward_contracts@[stream], amount),
        ),
        receive_outcome(*old(state), *info_sender, amount, msg) matches Err(e) ==> r == Err::<
            Response,
            ContractError,
        >(e) && *final(state) == *old(state),
{
    match msg {
        Some(HandleReceiveMsg::ReceiveRewards {  }) => {
            match find_stream(&state.reward_contracts, info_sender) {
                Some(stream) => {
                    match state.reward_contracts[stream].total_rewards.checked_add(amount) {
                        Some(reserve) => {
                            state.reward_contracts[stream].total_rewards = reserve;
                            assert(state.reward_contracts@ =~= old(state).reward_contracts@.update(
                                stream as int,
                                funded(old(state).reward_contracts@[stream as int], amount),
                            ));
                            Ok(nothing_to_do())
                        },
                        None => Err(ContractError::Overflow),
                    }
                },
                None => Err(ContractError::UnknownStream),
            }
        },
        None => Err(ContractError::MissingPayload),
    }
}

/// The index of the first stream at or after `from` that goes by `name`; the
/// number of streams where there is none.
pub open spec fn named_from(pools: Seq<RewardsContractInfo>, name: Seq<char>, from: int) -> int
    decreases pools.len() - from,
{
    if from < 0 || from >= pools.len() {
        pools.len() as int
    } else if pools[from].name@ == name {
        from
    } else {
        named_from(pools, name, from + 1)
    }
}

/// The index of the first stream that goes by `name`; the number of streams
/// where there is none.
pub open spec fn named(pools: Seq<RewardsContractInfo>, name: Seq<char>) -> int {
    named_from(pools, name, 0)
}

/// Finds the first stream that goes by `name`.
fn find_named(pools: &Vec<RewardsContractInfo>, name: &String) -> (r: Option<usize>)
    ensures
        r matches Some(i) ==> i < pools@.len() && i == named(pools@, name@),
        r is None ==> named(pools@, name@) == pools@.len(),
{
    let mut i: usize = 0;
    while i < pools.len()
        invariant
            i <= pools@.len(),
            named(pools@, name@) == named_from(pools@, name@, i as int),
        decreases pools@.len() - i,
    {
        if pools[i].name == *name {
            return Some(i);
        }
        i = i + 1;
    }
    None
}

/// What `fund` answers: the index of the stream that is funded, or why it
/// refuses.
pub open spec fn fund_outcome(state: State, stream_name: String, amount: u128) -> Result<
    int,
    ContractError,
> {
    let stream = named(state.reward_contracts@, stream_name@);
    if stream == state.reward_contracts@.len() {
        Err(ContractError::UnknownStream)
    } else if state.reward_contracts@[stream].total_rewards + amount > u128::MAX {
        Err(ContractError::Overflow)
    } else {
        Ok(stream)
    }
}

/// Adds `amount` to the reserve of the stream that goes by `stream_name`.
/// Refuses with `UnknownStream` where no stream goes by that name, and with
/// `Overflow` where the reserve would leave the 128-bit range.
pub fn fund(state: &mut State, stream_name: &String, amount: u128) -> (r: Result<
    Response,
    ContractError,
>)
    ensures
        fund_outcome(*old(state), *stream_name, amount) matches Ok(stream) ==> r is Ok && silent(
            r->Ok_0,
        ) && *final(state) == (State {
            reward_contracts: final(state).reward_contracts,
            ..*old(state)
        }) && final(state).reward_contracts@ == old(state).reward_contracts@.update(
            stream,
            funded(old(state).reward_contracts@[stream], amount),
        ),
        fund_outcome(*old(state), *stream_name, amount) matches Err(e) ==> r == Err::<
            Response,
            ContractError,
        >(e) && *final(state) == *old(state),
{
    match find_named(&state.reward_contracts, stream_name) {
        Some(stream) => {
            match state.reward_contracts[stream].total_rewards.checked_add(amount) {
                Some(reserve) => {
                    state.reward_contracts[stream].total_rewards = reserve;
                    assert(state.reward_contracts@ =~= old(state).reward_contracts@.update(
                        stream as int,
                        funded(old(state).reward_contracts@[stream as int], amount),
                    ));
                    Ok(nothing_to_do())
                },
                None => Err(ContractError::Overflow),
            }
        },
        None => Err(ContractError::UnknownStream),
    }
}

/// The one transfer that hands `amount` from the stream at index `stream` to
/// `recipient`.
pub open spec fn drain_message(stream: int, recipient: String, amount: u128) -> Seq<Transfer> {
    seq![Transfer::Reward { stream: stream as usize, recipient, amount }]
}

/// What `drain` answers: the index of the stream that is drained, or why it
/// refuses.
pub open spec fn drain_outcome(state: State, sender: String, stream_name: String) -> Result<
    int,
    ContractError,
> {
    if sender@ != state.owner@ {
        Err(ContractError::Unauthorized)
    } else if named(state.reward_contracts@, stream_name@) == state.reward_contracts@.len() {
        Err(ContractError::UnknownStream)
    } else {
        Ok(named(state.reward_contracts@, stream_name@))
    }
}

/// Takes the reserve of the stream that goes by `stream_name` out and hands
/// it to the owner. Only the owner may. Refuses with `UnknownStream` where no
/// stream goes by that name.
pub fn drain(state: &mut State, sender: &String, stream_name: &String) -> (r: Result<
    Response,
    ContractError,
>)
    ensures
        drain_outcome(*old(state), *sender, *stream_name) matches Ok(stream) ==> r is Ok
            && *final(state) == (State {
            reward_contracts: final(state).reward_contracts,
            ..*old(state)
        }) && final(state).reward_contracts@ == old(state).reward_contracts@.update(
            stream,
            drained(old(state).reward_contracts@[stream]),
        ) && r->Ok_0.history@.len() == 0 && r->Ok_0.messages@ == drain_message(
            stream,
            *sender,
            old(state).reward_contracts@[stream].total_rewards,
        ),
        drain_outcome(*old(state), *sender, *stream_name) matches Err(e) ==> r == Err::<
            Response,
            ContractError,
        >(e) && *final(state) == *old(state),
{
    if *sender != state.owner {
        return Err(ContractError::Unauthorized);
    }
    match find_named(&state.reward_contracts, stream_name) {
        Some(stream) => {
            let held = state.reward_contracts[stream].drain();
            let mut response = nothing_to_do();
            response.messages.push(
                Transfer::Reward { stream, recipient: sender.clone(), amount: held },
            );
            assert(state.reward_contracts@ =~= old(state).reward_contracts@.update(
                stream as int,
                drained(old(state).reward_contracts@[stream as int]),
            ));
            assert(response.messages@ =~= seq![
                Transfer::Reward { stream, recipient: *sender, amount: held },
            ]);
            Ok(response)
        },
        None => Err(ContractError::UnknownStream),
    }
}

/// Tells whether every stream's reserve is empty.
fn all_reserves_empty(pools: &Vec<RewardsContractInfo>) -> (r: bool)
    ensures
        r == reserves_empty(pools@),
{
    let mut i: usize = 0;
    while i < pools.len()
        invariant
            i <= pools@.len(),
            forall|j: int| 0 <= j < i ==> (#[trigger] pools@[j]).total_rewards == 0,
        decreases pools@.len() - i,
    {
        if pools[i].total_rewards != 0 {
            return false;
        }
        i = i + 1;
    }
    true
}

/// Why the pool's reward streams cannot be replaced, if they cannot: the
/// sender is not the owner, or a stream still holds a reserve.
pub open spec fn update_refusal(state: State, sender: String) -> Option<ContractError> {
    if sender@ != state.owner@ {
        Some(ContractError::Unauthorized)
    } else if !reserves_empty(state.reward_contracts@) {
        Some(ContractError::NonZeroReserve)
    } else {
        None
    }
}

/// Replaces the pool's reward streams by `contracts`. Only the owner may, and
/// only while no stream holds a reserve: reserves are drained first, so that
/// none is left behind with a stream that no longer exists.
pub fn try_update_reward_contract(
    state: &mut State,
    sender: &String,
    contracts: Vec<RewardsContractInfo>,
) -> (r: Result<Response, ContractError>)
    ensures
        update_refusal(*old(state), *sender) is None ==> r is Ok && silent(r->Ok_0)
            && *final(state) == (State { reward_contracts: contracts, ..*old(state) }),
        update_refusal(*old(state), *sender) matches Some(e) ==> r == Err::<
            Response,
            ContractError,
        >(e) && *final(state) == *old(state),
{
    if *sender != state.owner {
        return Err(ContractError::Unauthorized);
    }
    if !all_reserves_empty(&state.reward_contracts) {
        return Err(ContractError::NonZeroReserve);
    }
    state.reward_contracts = contracts;
    Ok(nothing_to_do())
}

/// Takes every stream's reserve out and hands it to the owner: one transfer
/// for each stream, in the streams' order. Only the owner may.
pub fn try_remove_rewards(state: &mut State, sender: &String) -> (r: Result<
    Response,
    ContractError,
>)
    ensures
        r is Ok <==> sender@ == old(state).owner@,
        r matches Ok(response) ==> *final(state) == (State {
            reward_contracts: final(state).reward_contracts,
            ..*old(state)
        }) && final(state).reward_contracts@ == old(state).reward_contracts@.map_values(
            |pool: RewardsContractInfo| drained(pool),
        ) && response.history@.len() == 0 && response.messages@ == drain_messages(
            old(state).reward_contracts@,
            *sender,
            old(state).reward_contracts@.len(),
        ),
        r matches Err(e) ==> e == ContractError::Unauthorized && *final(state) == *old(state),
{
    if *sender != state.owner {
        return Err(ContractError::Unauthorized);
    }
    let mut response = nothing_to_do();
    let mut i: usize = 0;
    while i < state.reward_contracts.len()
        invariant
            i <= state.reward_contracts@.len(),
            state.reward_contracts@.len() == old(state).reward_contracts@.len(),
            *state == (State { reward_contracts: state.reward_contracts, ..*old(state) }),
            forall|j: int|
                0 <= j < i ==> state.reward_contracts@[j] == drained(
                    old(state).reward_contracts@[j],
                ),
            forall|j: int|
                i <= j < state.reward_contracts@.len() ==> state.reward_contracts@[j]
                    == old(state).reward_contracts@[j],
            response.history@.len() == 0,
            response.messages@ == drain_messages(old(state).reward_contracts@, *sender, i as nat),
        decreases state.reward_contracts@.len() - i,
    {
        let held = state.reward_contracts[i].drain();
        response.messages.push(
            Transfer::Reward { stream: i, recipient: sender.clone(), amount: held },
        );
        i = i + 1;
    }
    assert(state.reward_contracts@ =~= old(state).reward_contracts@.map_values(
        |pool: RewardsContractInfo| drained(pool),
    ));
    Ok(response)
}

/// Whether every estimate is zero.
pub open spec fn nothing_accrued(rewards: Seq<EstimatedReward>) -> bool {
    forall|i: int| 0 <= i < rewards.len() ==> (#[trigger] rewards[i]).estimated_rewards == 0
}

/// What `try_claim_rewards` answers: the payouts, or why it refuses.
pub open spec fn claim_outcome(state: State, staked: Staked, current_time: u64) -> Result<
    Seq<u128>,
    ContractError,
> {
    let rewards = estimates(staked, current_time, state);
    if staked.staked_amount == 0 {
        Err(ContractError::NothingToClaim)
    } else if !estimable(staked, current_time, state) {
        Err(ContractError::Overflow)
    } else if nothing_accrued(rewards) {
        Err(ContractError::NothingToClaim)
    } else if !covered(state.reward_contracts@, claim_payouts(rewards)) {
        Err(ContractError::InsufficientReserve)
    } else {
        Ok(claim_payouts(rewards))
    }
}

/// What a claim that pays `payouts` leaves behind: each reserve is down by its
/// payout, the position is settled at `current_time`, and every stream that
/// pays has its claim record and its transfer to `recipient`.
pub open spec fn claimed(
    state: State,
    staked: Staked,
    current_time: u64,
    recipient: String,
    payouts: Seq<u128>,
    state_after: State,
    staked_after: Staked,
    response: Response,
) -> bool {
    &&& state_after == (State { reward_contracts: state_after.reward_contracts, ..state })
    &&& state_after.reward_contracts@ == paid_out(state.reward_contracts@, payouts)
    &&& staked_after == (Staked { last_claimed_date: Some(current_time), ..staked })
    &&& response.history@ == claim_history(payouts, current_time, payouts.len())
    &&& response.messages@ == reward_messages(payouts, recipient, payouts.len())
}

/// Tells whether every estimate is zero.
fn is_nothing_accrued(rewards: &Vec<EstimatedReward>) -> (r: bool)
    ensures
        r == nothing_accrued(rewards@),
{
    let mut i: usize = 0;
    while i < rewards.len()
        invariant
            i <= rewards@.len(),
            forall|j: int| 0 <= j < i ==> (#[trigger] rewards@[j]).estimated_rewards == 0,
        decreases rewards@.len() - i,
    {
        if rewards[i].estimated_rewards != 0 {
            return false;
        }
        i = i + 1;
    }
    true
}

/// Works out what a claim pays from each stream, where every reserve holds
/// its part.
fn payouts_of_claim(state: &State, rewards: &Vec<EstimatedReward>) -> (r: Option<Vec<u128>>)
    requires
        rewards@.len() == state.reward_contracts@.len(),
    ensures
        r is Some <==> covered(state.reward_contracts@, claim_payouts(rewards@)),
        r matches Some(payouts) ==> payouts@ == claim_payouts(rewards@),
{
    let mut payouts: Vec<u128> = Vec::new();
    let mut i: usize = 0;
    while i < rewards.len()
        invariant
            i <= rewards@.len(),
            rewards@.len() == state.reward_contracts@.len(),
            payouts@.len() == i,
            forall|j: int| 0 <= j < i ==> payouts@[j] == rewards@[j].estimated_rewards,
            forall|j: int|
                0 <= j < i ==> rewards@[j].estimated_rewards <= (
                #[trigger] state.reward_contracts@[j]).total_rewards,
        decreases rewards@.len() - i,
    {
        let estimate = rewards[i].estimated_rewards;
        if state.reward_contracts[i].total_rewards < estimate {
            assert(claim_payouts(rewards@)[i as int]
                > state.reward_contracts@[i as int].total_rewards);
            return None;
        }
        payouts.push(estimate);
        i = i + 1;
    }
    assert(payouts@ =~= claim_payouts(rewards@));
    Some(payouts)
}

/// Pays the participant `info_sender` what the position has accrued from every
/// stream up to `current_time`, and settles the position at that moment.
///
/// A claim is paid in full or not at all. It is refused with `NothingToClaim`
/// where the position holds nothing or no stream has accrued anything, with
/// `Overflow` where an amount cannot be computed, and with
/// `InsufficientReserve` where a stream's reserve holds less than the amount
/// accrued from it. On success each stream's reserve goes down by its amount,
/// and each stream that pays adds a claim record and a transfer.
pub fn try_claim_rewards(
    state: &mut State,
    staked: &mut Staked,
    current_time: u64,
    info_sender: &String,
) -> (r: Result<Response, ContractError>)
    ensures
        claim_outcome(*old(state), *old(staked), current_time) matches Ok(payouts) ==> r is Ok
            && claimed(
            *old(state),
            *old(staked),
            current_time,
            *info_sender,
            payouts,
            *final(state),
            *final(staked),
            r->Ok_0,
        ),
        claim_outcome(*old(state), *old(staked), current_time) matches Err(e) ==> r == Err::<
            Response,
            ContractError,
        >(e) && *final(state) == *old(state) && *final(staked) == *old(staked),
{
    if staked.staked_amount == 0 {
        return Err(ContractError::NothingToClaim);
    }
    let rewards = match get_estimated_rewards(staked, &current_time, state) {
        Ok(rewards) => rewards,
        Err(e) => {
            return Err(e);
        },
    };
    if is_nothing_accrued(&rewards) {
        return Err(ContractError::NothingToClaim);
    }
    let payouts = match payouts_of_claim(state, &rewards) {
        Some(payouts) => payouts,
        None => {
            return Err(ContractError::InsufficientReserve);
        },
    };
    let mut response = nothing_to_do();
    pay_out(state, &payouts, info_sender, current_time, &mut response);
    staked.last_claimed_date = Some(current_time);
    assert(response.history@ =~= claim_history(payouts@, current_time, payouts@.len()));
    assert(response.messages@ =~= reward_messages(payouts@, *info_sender, payouts@.len()));
    Ok(response)
}

/// Sets up a pool for the owner `sender`: active, without collateral, with
/// the streams, the restriction and the weighting dimensions that `msg` asks
/// for. The viewing key under which the pool reads its own balances is
/// derived from the entropy in `msg`.
pub fn instantiate(sender: String, msg: InstantiateMsg) -> (state: State)
    ensures
        state.owner == sender,
        state.is_active,
        state.staking_contract == msg.staking_contract,
        state.reward_contracts == msg.reward_contracts,
        state.viewing_key is Some,
        state.viewing_key->Some_0@ == derived_key(msg.entropy@),
        state.total_staked_amount == 0,
        state.trait_restriction == msg.trait_restriction,
        state.staking_weights == msg.staking_weights,
{
    let key = viewing_key(&msg.entropy);
    State {
        viewing_key: Some(key),
        owner: sender,
        staking_contract: msg.staking_contract,
        reward_contracts: msg.reward_contracts,
        is_active: true,
        trait_restriction: msg.trait_restriction,
        staking_weights: msg.staking_weights,
        total_staked_amount: 0,
    }
}

/// Shows the pool: everything but its owner and its viewing key.
pub fn query_staked(state: State) -> (info: StakedInfoResponse)
    ensures
        info.total_staked_amount == state.total_staked_amount,
        info.staking_contract == state.staking_contract,
        info.reward_contracts == Some(state.reward_contracts),
        info.trait_restriction == state.trait_restriction,
        info.staking_weights == state.staking_weights,
        info.is_active == Some(state.is_active),
{
    StakedInfoResponse {
        total_staked_amount: state.total_staked_amount,
        staking_contract: state.staking_contract,
        reward_contracts: Some(state.reward_contracts),
        trait_restriction: state.trait_restriction,
        staking_weights: state.staking_weights,
        is_active: Some(state.is_active),
    }
}

/// The position that is shown for a participant who has none: it holds
/// nothing and records nothing.
pub open spec fn unknown_position() -> Staked {
    Staked {
        staked_amount: 0,
        last_claimed_date: None,
        last_staked_date: None,
        staking_weights: None,
    }
}

/// The position that `query_my_staked` shows.
pub open spec fn shown_position(staked: Option<Staked>) -> Staked {
    match staked {
        Some(staked) => staked,
        None => unknown_position(),
    }
}

/// Shows a participant's position with what it would be paid at
/// `current_time`. A participant without a position is shown one that holds
/// nothing, with an estimate of zero for every stream. Fails with `Overflow`
/// where an amount cannot be computed.
pub fn query_my_staked(state: &State, staked: Option<Staked>, current_time: u64) -> (r: Result<
    MyStakedInfoResponse,
    ContractError,
>)
    ensures
        r is Ok <==> estimable(shown_position(staked), current_time, *state),
        r matches Ok(info) ==> info.staked == shown_position(staked) && info.estimated_rewards@
            == estimates(shown_position(staked), current_time, *state),
        r matches Err(e) ==> e == ContractError::Overflow,
{
    let staked = match staked {
        Some(staked) => staked,
        None => Staked {
            staked_amount: 0,
            last_claimed_date: None,
            last_staked_date: None,
            staking_weights: None,
        },
    };
    match get_estimated_rewards(&staked, &current_time, state) {
        Ok(estimated_rewards) => Ok(MyStakedInfoResponse { staked, estimated_rewards }),
        Err(e) => Err(e),
    }
}

} // verus!
