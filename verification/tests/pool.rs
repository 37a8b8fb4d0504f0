use stake_engine::contract::{
    drain, fund, receive, try_claim_rewards, try_remove_rewards, try_set_active_state,
    try_set_trait_restriction, try_update_reward_contract,
};
use stake_engine::deposit::{deposit, try_batch_receive};
use stake_engine::error::ContractError;
use stake_engine::msg::{
    Action, ContractInfo, HandleReceiveMsg, History, RewardsContractInfo, Staked, StakingWeight,
    Trait, Transfer, UserStakingWeight,
};
use stake_engine::rewards::get_estimated_rewards;
use stake_engine::state::State;
use stake_engine::traits::{collateral_weights, reads_attributes};
use stake_engine::withdraw::{
    try_eject, try_withdraw, try_withdraw_no_reward, try_withdraw_with_quantity,
};

const DAY: u64 = 86_400;
const START: u64 = 1_686_588_696;

fn text(s: &str) -> String {
    s.to_string()
}

fn stream(name: &str, address: &str, rate: u128, reserve: u128) -> RewardsContractInfo {
    RewardsContractInfo {
        code_hash: text("hash"),
        address: text(address),
        rewards_per_day: rate,
        name: text(name),
        total_rewards: reserve,
    }
}

fn pool(streams: Vec<RewardsContractInfo>, total: u128) -> State {
    State {
        owner: text("owner"),
        is_active: true,
        staking_contract: ContractInfo {
            code_hash: text("nft-hash"),
            address: text("nft"),
            name: text("collection"),
            stake_type: text("nft"),
        },
        reward_contracts: streams,
        viewing_key: None,
        total_staked_amount: total,
        trait_restriction: None,
        staking_weights: None,
    }
}

fn weighted(mut state: State) -> State {
    state.staking_weights = Some(vec![
        StakingWeight { amount: 33, weight_trait_type: text("Pack"), weight_percentage: 50 },
        StakingWeight {
            amount: 20086,
            weight_trait_type: text("Pack Rank"),
            weight_percentage: 50,
        },
    ]);
    state
}

fn position(amount: u128, staked_at: u64) -> Staked {
    Staked {
        staked_amount: amount,
        last_claimed_date: None,
        last_staked_date: Some(staked_at),
        staking_weights: Some(vec![]),
    }
}

fn ids(names: &[&str]) -> Vec<String> {
    names.iter().map(|n| n.to_string()).collect()
}

fn attribute(name: &str, value: &str) -> Trait {
    Trait { trait_type: Some(text(name)), value: text(value) }
}

#[test]
fn uniform_estimate_is_truncated_per_term() {
    let state = pool(vec![stream("a", "ra", 2_739_000_000, 10_000_000_000_000)], 200);
    let rewards = get_estimated_rewards(&position(1, START), &(START + DAY), &state).unwrap();
    assert_eq!(rewards.len(), 1);
    assert_eq!(rewards[0].estimated_rewards, 13_694_999);
    assert_eq!(rewards[0].reward_contract_name, "a");
}

#[test]
fn uniform_estimate_larger_share() {
    let state = pool(vec![stream("a", "ra", 2_739_000_000, 10_000_000_000_000)], 200);
    let rewards = get_estimated_rewards(&position(100, START), &(START + DAY), &state).unwrap();
    assert_eq!(rewards[0].estimated_rewards, 1_369_499_999);
}

#[test]
fn weighted_estimate_adds_truncated_terms() {
    let state = weighted(pool(vec![stream("a", "ra", 2_739_000_000, 10_000_000_000_000)], 22322));
    let mut staked = position(10020, START);
    staked.staking_weights = Some(vec![
        UserStakingWeight { amount: 11, weight_trait_type: text("Pack") },
        UserStakingWeight { amount: 10043, weight_trait_type: text("Pack Rank") },
    ]);
    let rewards = get_estimated_rewards(&staked, &(START + DAY), &state).unwrap();
    assert_eq!(rewards[0].estimated_rewards, 1_141_249_998);
}

#[test]
fn estimate_one_per_stream_in_order() {
    let state = pool(vec![stream("a", "ra", 86_400, 0), stream("b", "rb", 2 * 86_400, 0)], 4);
    let rewards = get_estimated_rewards(&position(1, 100), &140, &state).unwrap();
    assert_eq!(rewards.len(), 2);
    assert_eq!(rewards[0].reward_contract_name, "a");
    assert_eq!(rewards[0].estimated_rewards, 10);
    assert_eq!(rewards[1].reward_contract_name, "b");
    assert_eq!(rewards[1].estimated_rewards, 20);
}

#[test]
fn estimate_zero_elapsed_is_zero() {
    let state = pool(vec![stream("a", "ra", 2_739_000_000, 1)], 200);
    let rewards = get_estimated_rewards(&position(100, START), &START, &state).unwrap();
    assert_eq!(rewards[0].estimated_rewards, 0);
}

#[test]
fn estimate_twice_gives_the_same() {
    let state = pool(vec![stream("a", "ra", 2_739_000_000, 1)], 200);
    let staked = position(7, START);
    let first = get_estimated_rewards(&staked, &(START + 12345), &state);
    let second = get_estimated_rewards(&staked, &(START + 12345), &state);
    assert_eq!(first, second);
}

#[test]
fn estimate_empty_position_is_zero() {
    let state = pool(vec![stream("a", "ra", 2_739_000_000, 1)], 200);
    let rewards = get_estimated_rewards(&Staked::empty(), &u64::MAX, &state).unwrap();
    assert_eq!(rewards[0].estimated_rewards, 0);
    let rewards = get_estimated_rewards(&Staked::empty(), &0, &weighted(state)).unwrap();
    assert_eq!(rewards[0].estimated_rewards, 0);
}

#[test]
fn estimate_empty_pool_total_is_zero() {
    let state = pool(vec![stream("a", "ra", 2_739_000_000, 1)], 0);
    let rewards = get_estimated_rewards(&position(5, START), &(START + DAY), &state).unwrap();
    assert_eq!(rewards[0].estimated_rewards, 0);
}

#[test]
fn estimate_dimension_without_weight_adds_nothing() {
    let mut state = weighted(pool(vec![stream("a", "ra", 86_400, 0)], 10));
    state.staking_weights.as_mut().unwrap()[0].amount = 0;
    let mut staked = position(1, 0);
    staked.staking_weights =
        Some(vec![UserStakingWeight { amount: 10043, weight_trait_type: text("Pack Rank") }]);
    // only "Pack Rank" counts: half of 1 per second, by 10043 of 20086, for 400 seconds
    let rewards = get_estimated_rewards(&staked, &400, &state).unwrap();
    assert_eq!(rewards[0].estimated_rewards, 100);
}

#[test]
fn estimate_missing_contribution_counts_as_zero() {
    let state = weighted(pool(vec![stream("a", "ra", 86_400, 0)], 10));
    let mut staked = position(1, 0);
    staked.staking_weights = None;
    let rewards = get_estimated_rewards(&staked, &400, &state).unwrap();
    assert_eq!(rewards[0].estimated_rewards, 0);
}

#[test]
fn estimate_uses_the_later_of_stake_and_claim() {
    let state = pool(vec![stream("a", "ra", 86_400, 0)], 1);
    let mut staked = position(1, 100);
    staked.last_claimed_date = Some(60);
    assert_eq!(get_estimated_rewards(&staked, &130, &state).unwrap()[0].estimated_rewards, 30);
    staked.last_claimed_date = Some(120);
    assert_eq!(get_estimated_rewards(&staked, &130, &state).unwrap()[0].estimated_rewards, 10);
}

#[test]
fn estimate_before_settlement_overflows() {
    let state = pool(vec![stream("a", "ra", 86_400, 0)], 1);
    assert_eq!(
        get_estimated_rewards(&position(1, 100), &99, &state),
        Err(ContractError::Overflow)
    );
}

#[test]
fn estimate_out_of_range_overflows() {
    let state = pool(vec![stream("a", "ra", u128::MAX, 0)], 1);
    assert_eq!(
        get_estimated_rewards(&position(1, 0), &10, &state),
        Err(ContractError::Overflow)
    );
}

#[test]
fn set_active_state_is_for_the_owner() {
    let mut state = pool(vec![], 0);
    let before = state.clone();
    assert_eq!(
        try_set_active_state(&mut state, &text("someone"), false),
        Err(ContractError::Unauthorized)
    );
    assert_eq!(state, before);
    let response = try_set_active_state(&mut state, &text("owner"), false).unwrap();
    assert!(response.messages.is_empty() && response.history.is_empty());
    assert!(!state.is_active);
    state.is_active = true;
    assert_eq!(state, before);
}

#[test]
fn set_trait_restriction_is_for_the_owner() {
    let mut state = pool(vec![], 0);
    let before = state.clone();
    assert_eq!(
        try_set_trait_restriction(&mut state, &text("someone"), Some(text("Alpha"))),
        Err(ContractError::Unauthorized)
    );
    assert_eq!(state, before);
    try_set_trait_restriction(&mut state, &text("owner"), Some(text("Alpha"))).unwrap();
    assert_eq!(state.trait_restriction, Some(text("Alpha")));
}

#[test]
fn funding_raises_the_reserve_of_the_matching_stream() {
    let mut state = pool(vec![stream("a", "ra", 1, 5), stream("b", "rb", 1, 7)], 0);
    let fund = Some(HandleReceiveMsg::ReceiveRewards {});
    let response =
        receive(&mut state, &text("rb"), &text("x"), &text("x"), 100, fund).unwrap();
    assert!(response.messages.is_empty() && response.history.is_empty());
    assert_eq!(state.reward_contracts[0].total_rewards, 5);
    assert_eq!(state.reward_contracts[1].total_rewards, 107);
}

#[test]
fn funding_from_a_stranger_is_unknown_stream() {
    let mut state = pool(vec![stream("a", "ra", 1, 5)], 0);
    let before = state.clone();
    let fund = Some(HandleReceiveMsg::ReceiveRewards {});
    assert_eq!(
        receive(&mut state, &text("zz"), &text("x"), &text("x"), 100, fund),
        Err(ContractError::UnknownStream)
    );
    assert_eq!(
        receive(&mut state, &text("ra"), &text("x"), &text("x"), 100, None),
        Err(ContractError::MissingPayload)
    );
    assert_eq!(
        receive(&mut state, &text("ra"), &text("x"), &text("x"), u128::MAX, fund),
        Err(ContractError::Overflow)
    );
    assert_eq!(state, before);
}

#[test]
fn reconfigure_needs_empty_reserves() {
    let mut state = pool(vec![stream("a", "ra", 1, 0), stream("b", "rb", 1, 7)], 0);
    let before = state.clone();
    let next = vec![stream("c", "rc", 9, 0)];
    assert_eq!(
        try_update_reward_contract(&mut state, &text("someone"), next.clone()),
        Err(ContractError::Unauthorized)
    );
    assert_eq!(
        try_update_reward_contract(&mut state, &text("owner"), next.clone()),
        Err(ContractError::NonZeroReserve)
    );
    assert_eq!(state, before);
    state.reward_contracts[1].total_rewards = 0;
    try_update_reward_contract(&mut state, &text("owner"), next.clone()).unwrap();
    assert_eq!(state.reward_contracts, next);
}

#[test]
fn drain_hands_every_reserve_to_the_owner() {
    let mut state = pool(vec![stream("a", "ra", 1, 5), stream("b", "rb", 1, 0)], 3);
    assert_eq!(
        try_remove_rewards(&mut state, &text("someone")),
        Err(ContractError::Unauthorized)
    );
    let response = try_remove_rewards(&mut state, &text("owner")).unwrap();
    assert_eq!(
        response.messages,
        vec![
            Transfer::Reward { stream: 0, recipient: text("owner"), amount: 5 },
            Transfer::Reward { stream: 1, recipient: text("owner"), amount: 0 },
        ]
    );
    assert!(response.history.is_empty());
    assert_eq!(state.reward_contracts[0].total_rewards, 0);
    assert_eq!(state.reward_contracts[1].total_rewards, 0);
    assert_eq!(state.total_staked_amount, 3);
    let mut one = stream("a", "ra", 1, 42);
    assert_eq!(one.drain(), 42);
    assert_eq!(one.total_rewards, 0);
}

#[test]
fn claim_pays_every_stream_and_settles() {
    let mut state = pool(vec![stream("a", "ra", 86_400, 40), stream("b", "rb", 86_400, 1000)], 1);
    let mut staked = position(1, 100);
    let response = try_claim_rewards(&mut state, &mut staked, 140, &text("alice")).unwrap();
    assert_eq!(state.reward_contracts[0].total_rewards, 0);
    assert_eq!(state.reward_contracts[1].total_rewards, 960);
    assert_eq!(staked.last_claimed_date, Some(140));
    assert_eq!(staked.last_staked_date, Some(100));
    assert_eq!(staked.staked_amount, 1);
    assert_eq!(
        response.messages,
        vec![
            Transfer::Reward { stream: 0, recipient: text("alice"), amount: 40 },
            Transfer::Reward { stream: 1, recipient: text("alice"), amount: 40 },
        ]
    );
    assert_eq!(
        response.history,
        vec![
            History { amount: 40, date: 140, action: Action::Claim },
            History { amount: 40, date: 140, action: Action::Claim },
        ]
    );
    // nothing has accrued right after
    assert_eq!(
        try_claim_rewards(&mut state, &mut staked, 140, &text("alice")),
        Err(ContractError::NothingToClaim)
    );
}

#[test]
fn claim_is_all_or_nothing() {
    let mut state = pool(vec![stream("a", "ra", 86_400, 1000), stream("b", "rb", 86_400, 39)], 1);
    let mut staked = position(1, 100);
    let (state_before, staked_before) = (state.clone(), staked.clone());
    assert_eq!(
        try_claim_rewards(&mut state, &mut staked, 140, &text("alice")),
        Err(ContractError::InsufficientReserve)
    );
    assert_eq!(state, state_before);
    assert_eq!(staked, staked_before);
}

#[test]
fn claim_of_an_empty_position_is_nothing_to_claim() {
    let mut state = pool(vec![stream("a", "ra", 86_400, 1000)], 1);
    let mut staked = Staked::empty();
    assert_eq!(
        try_claim_rewards(&mut state, &mut staked, 140, &text("alice")),
        Err(ContractError::NothingToClaim)
    );
}

#[test]
fn claim_skips_streams_that_accrued_nothing() {
    let mut state = pool(vec![stream("a", "ra", 0, 5), stream("b", "rb", 86_400, 1000)], 1);
    let mut staked = position(1, 100);
    let response = try_claim_rewards(&mut state, &mut staked, 110, &text("alice")).unwrap();
    assert_eq!(
        response.messages,
        vec![Transfer::Reward { stream: 1, recipient: text("alice"), amount: 10 }]
    );
    assert_eq!(response.history, vec![History { amount: 10, date: 110, action: Action::Claim }]);
    assert_eq!(state.reward_contracts[0].total_rewards, 5);
    assert_eq!(state.reward_contracts[1].total_rewards, 990);
}

#[test]
fn deposit_while_paused_is_refused() {
    let mut state = pool(vec![stream("a", "ra", 86_400, 1000)], 0);
    state.is_active = false;
    let mut staked = Staked::empty();
    let mut nfts: Vec<String> = vec![];
    let before = state.clone();
    let r = try_batch_receive(
        &mut state,
        &mut staked,
        &mut nfts,
        100,
        &text("nft"),
        &text("alice"),
        ids(&["1"]),
        &vec![vec![]],
    );
    assert_eq!(r, Err(ContractError::InactivePool));
    assert_eq!(state, before);
    assert_eq!(staked, Staked::empty());
    assert!(nfts.is_empty());
}

#[test]
fn deposit_from_a_stranger_is_refused() {
    let mut state = pool(vec![], 0);
    let mut staked = Staked::empty();
    let mut nfts: Vec<String> = vec![];
    let r = try_batch_receive(
        &mut state,
        &mut staked,
        &mut nfts,
        100,
        &text("other"),
        &text("alice"),
        ids(&["1"]),
        &vec![vec![]],
    );
    assert_eq!(r, Err(ContractError::UnauthorizedSource));
}

#[test]
fn deposit_of_an_ineligible_item_deposits_nothing() {
    let mut state = pool(vec![stream("a", "ra", 86_400, 1000)], 0);
    state.trait_restriction = Some(text("Alpha"));
    let mut staked = Staked::empty();
    let mut nfts: Vec<String> = vec![];
    let before = state.clone();
    let metadata =
        vec![vec![attribute("Alpha", "yes")], vec![attribute("Beta", "1")], vec![attribute(
            "Alpha", "no",
        )]];
    let r = try_batch_receive(
        &mut state,
        &mut staked,
        &mut nfts,
        100,
        &text("nft"),
        &text("alice"),
        ids(&["1", "2", "3"]),
        &metadata,
    );
    assert_eq!(r, Err(ContractError::IneligibleCollateral));
    assert_eq!(state, before);
    assert_eq!(staked, Staked::empty());
    assert!(nfts.is_empty());
}

#[test]
fn deposit_without_weight_trait_is_refused() {
    let mut state = weighted(pool(vec![], 0));
    let mut staked = Staked::empty();
    let mut nfts: Vec<String> = vec![];
    let before = state.clone();
    let metadata = vec![vec![attribute("Pack", "3")]];
    let r = try_batch_receive(
        &mut state,
        &mut staked,
        &mut nfts,
        100,
        &text("nft"),
        &text("alice"),
        ids(&["1"]),
        &metadata,
    );
    assert_eq!(r, Err(ContractError::MissingWeightTrait));
    let metadata = vec![vec![attribute("Pack", "3"), attribute("Pack Rank", "high")]];
    let r = try_batch_receive(
        &mut state,
        &mut staked,
        &mut nfts,
        100,
        &text("nft"),
        &text("alice"),
        ids(&["1"]),
        &metadata,
    );
    assert_eq!(r, Err(ContractError::MissingWeightTrait));
    assert_eq!(state, before);
}

#[test]
fn first_deposit_opens_the_position() {
    let mut state = pool(vec![stream("a", "ra", 86_400, 1000)], 5);
    let mut staked = Staked::empty();
    let mut nfts: Vec<String> = vec![];
    let response = try_batch_receive(
        &mut state,
        &mut staked,
        &mut nfts,
        100,
        &text("nft"),
        &text("alice"),
        ids(&["7", "8"]),
        &vec![],
    )
    .unwrap();
    assert_eq!(state.total_staked_amount, 7);
    assert_eq!(state.reward_contracts[0].total_rewards, 1000);
    assert_eq!(staked.staked_amount, 2);
    assert_eq!(staked.last_staked_date, Some(100));
    assert_eq!(staked.last_claimed_date, None);
    assert_eq!(nfts, ids(&["7", "8"]));
    assert!(response.messages.is_empty());
    assert_eq!(response.history, vec![History { amount: 2, date: 100, action: Action::Stake }]);
}

#[test]
fn further_deposit_pays_what_has_accrued() {
    let mut state = pool(vec![stream("a", "ra", 86_400, 1000), stream("b", "rb", 86_400, 20)], 2);
    let mut staked = position(1, 100);
    let mut nfts = ids(&["1"]);
    // half of one unit per second for 40 seconds from each stream; "b" holds no more than that
    let response = try_batch_receive(
        &mut state,
        &mut staked,
        &mut nfts,
        140,
        &text("nft"),
        &text("alice"),
        ids(&["2"]),
        &vec![],
    )
    .unwrap();
    assert_eq!(state.reward_contracts[0].total_rewards, 980);
    assert_eq!(state.reward_contracts[1].total_rewards, 20);
    assert_eq!(state.total_staked_amount, 3);
    assert_eq!(staked.staked_amount, 2);
    assert_eq!(staked.last_staked_date, Some(140));
    assert_eq!(staked.last_claimed_date, Some(140));
    assert_eq!(nfts, ids(&["1", "2"]));
    assert_eq!(
        response.messages,
        vec![Transfer::Reward { stream: 0, recipient: text("alice"), amount: 20 }]
    );
    assert_eq!(
        response.history,
        vec![
            History { amount: 20, date: 140, action: Action::Claim },
            History { amount: 1, date: 140, action: Action::Stake },
        ]
    );
}

#[test]
fn weighted_deposit_raises_pool_and_position() {
    let mut state = weighted(pool(vec![stream("a", "ra", 86_400, 1000)], 10));
    let mut staked = Staked::empty();
    staked.staking_weights =
        Some(vec![UserStakingWeight { amount: 4, weight_trait_type: text("Pack Rank") }]);
    let mut nfts: Vec<String> = vec![];
    let metadata = vec![
        vec![attribute("Pack Rank", "100"), attribute("Pack", "2"), attribute("Pack", "9")],
        vec![
            Trait { trait_type: None, value: text("5") },
            attribute("Pack", "3"),
            attribute("Pack Rank", "7"),
        ],
    ];
    try_batch_receive(
        &mut state,
        &mut staked,
        &mut nfts,
        100,
        &text("nft"),
        &text("alice"),
        ids(&["1", "2"]),
        &metadata,
    )
    .unwrap();
    let dimensions = state.staking_weights.unwrap();
    assert_eq!(dimensions[0].amount, 33 + 5);
    assert_eq!(dimensions[1].amount, 20086 + 107);
    assert_eq!(
        staked.staking_weights,
        Some(vec![
            UserStakingWeight { amount: 5, weight_trait_type: text("Pack") },
            UserStakingWeight { amount: 111, weight_trait_type: text("Pack Rank") },
        ])
    );
    assert_eq!(staked.staked_amount, 2);
}

#[test]
fn collateral_weights_reads_numbers() {
    let state = weighted(pool(vec![], 0));
    let metadata = vec![
        vec![attribute("Pack", "12"), attribute("Pack Rank", "4000000000")],
        vec![attribute("Pack", "30"), attribute("Pack Rank", "4000000000")],
    ];
    assert_eq!(collateral_weights(&state, 2, &metadata), Ok(vec![42, 8_000_000_000]));
    assert_eq!(collateral_weights(&state, 1, &metadata), Ok(vec![12, 4_000_000_000]));
    assert_eq!(collateral_weights(&state, 0, &metadata), Ok(vec![0, 0]));
    assert_eq!(
        collateral_weights(&state, 3, &metadata),
        Err(ContractError::MissingWeightTrait)
    );
    let metadata = vec![vec![attribute("Pack", "-1"), attribute("Pack Rank", "1")]];
    assert_eq!(
        collateral_weights(&state, 1, &metadata),
        Err(ContractError::MissingWeightTrait)
    );
    let metadata = vec![vec![attribute("Pack", "4294967296"), attribute("Pack Rank", "1")]];
    assert_eq!(
        collateral_weights(&state, 1, &metadata),
        Err(ContractError::MissingWeightTrait)
    );
    assert_eq!(collateral_weights(&pool(vec![], 0), 5, &vec![]), Ok(vec![]));
}

#[test]
fn deposit_needs_one_weight_for_each_dimension() {
    let mut state = weighted(pool(vec![], 0));
    let mut staked = Staked::empty();
    let mut nfts: Vec<String> = vec![];
    let r = deposit(&mut state, &mut staked, &mut nfts, 1, &text("alice"), ids(&["1"]), &vec![1]);
    assert_eq!(r, Err(ContractError::MissingWeightTrait));
    let r = deposit(
        &mut state,
        &mut staked,
        &mut nfts,
        1,
        &text("alice"),
        ids(&["1"]),
        &vec![u128::MAX, 1],
    );
    assert_eq!(r, Err(ContractError::Overflow));
    assert_eq!(state, weighted(pool(vec![], 0)));
}

#[test]
fn full_withdrawal_empties_the_position() {
    let mut state = pool(vec![stream("a", "ra", 86_400, 1000)], 4);
    let mut staked = position(2, 100);
    let mut nfts = ids(&["1", "2"]);
    let response =
        try_withdraw(&mut state, &mut staked, &mut nfts, 140, &text("alice")).unwrap();
    assert_eq!(state.total_staked_amount, 2);
    assert_eq!(state.reward_contracts[0].total_rewards, 980);
    assert_eq!(staked, Staked::empty());
    assert!(nfts.is_empty());
    assert_eq!(
        response.messages,
        vec![
            Transfer::Reward { stream: 0, recipient: text("alice"), amount: 20 },
            Transfer::Collateral { recipient: text("alice"), token_ids: ids(&["1", "2"]) },
        ]
    );
    assert_eq!(
        response.history,
        vec![
            History { amount: 20, date: 140, action: Action::Claim },
            History { amount: 2, date: 140, action: Action::Withdraw },
        ]
    );
    let later = get_estimated_rewards(&staked, &1_000_000, &state).unwrap();
    assert_eq!(later[0].estimated_rewards, 0);
    assert_eq!(
        try_withdraw(&mut state, &mut staked, &mut nfts, 150, &text("alice")),
        Err(ContractError::NothingStaked)
    );
}

#[test]
fn full_withdrawal_releases_weights() {
    let mut state = weighted(pool(vec![stream("a", "ra", 86_400, 1_000_000)], 10));
    let mut staked = position(2, 100);
    staked.staking_weights = Some(vec![
        UserStakingWeight { amount: 11, weight_trait_type: text("Pack") },
        UserStakingWeight { amount: 10043, weight_trait_type: text("Pack Rank") },
    ]);
    let mut nfts = ids(&["1", "2"]);
    try_withdraw(&mut state, &mut staked, &mut nfts, 140, &text("alice")).unwrap();
    let dimensions = state.staking_weights.clone().unwrap();
    assert_eq!(dimensions[0].amount, 22);
    assert_eq!(dimensions[1].amount, 10043);
    assert_eq!(state.total_staked_amount, 8);
    assert_eq!(staked, Staked::empty());
}

#[test]
fn withdrawal_that_the_pool_cannot_cover_overflows() {
    let mut state = pool(vec![], 1);
    let mut staked = position(2, 100);
    let mut nfts = ids(&["1", "2"]);
    let before = state.clone();
    assert_eq!(
        try_withdraw(&mut state, &mut staked, &mut nfts, 140, &text("alice")),
        Err(ContractError::Overflow)
    );
    assert_eq!(state, before);
    assert_eq!(staked, position(2, 100));
    assert_eq!(nfts, ids(&["1", "2"]));
}

#[test]
fn partial_withdrawal_keeps_the_rest() {
    let mut state = pool(vec![stream("a", "ra", 86_400, 1000)], 6);
    let mut staked = position(3, 100);
    let mut nfts = ids(&["1", "2", "3"]);
    let response =
        try_withdraw_with_quantity(&mut state, &mut staked, &mut nfts, 140, &text("alice"), 2)
            .unwrap();
    assert_eq!(state.total_staked_amount, 4);
    assert_eq!(state.reward_contracts[0].total_rewards, 980);
    assert_eq!(nfts, ids(&["3"]));
    assert_eq!(
        staked,
        Staked {
            staked_amount: 1,
            last_claimed_date: None,
            last_staked_date: Some(140),
            staking_weights: Some(vec![]),
        }
    );
    assert_eq!(
        response.messages,
        vec![
            Transfer::Reward { stream: 0, recipient: text("alice"), amount: 20 },
            Transfer::Collateral { recipient: text("alice"), token_ids: ids(&["1", "2"]) },
        ]
    );
    assert_eq!(
        response.history,
        vec![
            History { amount: 20, date: 140, action: Action::Claim },
            History { amount: 1, date: 140, action: Action::Withdraw },
        ]
    );
}

#[test]
fn withdrawal_of_every_item_by_quantity_empties_the_position() {
    let mut state = pool(vec![], 6);
    let mut staked = position(3, 100);
    let mut nfts = ids(&["1", "2", "3"]);
    try_withdraw_with_quantity(&mut state, &mut staked, &mut nfts, 140, &text("alice"), 3)
        .unwrap();
    assert_eq!(staked, Staked::empty());
    assert!(nfts.is_empty());
    assert_eq!(state.total_staked_amount, 3);
}

#[test]
fn withdrawal_by_quantity_refusals() {
    let mut state = pool(vec![], 6);
    let mut staked = position(3, 100);
    let mut nfts = ids(&["1", "2", "3"]);
    assert_eq!(
        try_withdraw_with_quantity(&mut state, &mut staked, &mut nfts, 140, &text("alice"), 4),
        Err(ContractError::InsufficientStake)
    );
    let mut state = weighted(state);
    assert_eq!(
        try_withdraw_with_quantity(&mut state, &mut staked, &mut nfts, 140, &text("alice"), 2),
        Err(ContractError::UnsupportedForWeightedPools)
    );
    assert_eq!(nfts, ids(&["1", "2", "3"]));
    assert_eq!(staked, position(3, 100));
    let mut none = Staked::empty();
    let mut no_nfts: Vec<String> = vec![];
    assert_eq!(
        try_withdraw_with_quantity(&mut state, &mut none, &mut no_nfts, 140, &text("alice"), 0),
        Err(ContractError::NothingStaked)
    );
}

#[test]
fn withdrawal_without_rewards_leaves_the_reserves() {
    let mut state = pool(vec![stream("a", "ra", 86_400, 1000)], 4);
    let mut staked = position(2, 100);
    let mut nfts = ids(&["1", "2"]);
    let response =
        try_withdraw_no_reward(&mut state, &mut staked, &mut nfts, 140, &text("alice")).unwrap();
    assert_eq!(state.reward_contracts[0].total_rewards, 1000);
    assert_eq!(state.total_staked_amount, 2);
    assert_eq!(staked, Staked::empty());
    assert!(nfts.is_empty());
    assert_eq!(
        response.messages,
        vec![Transfer::Collateral { recipient: text("alice"), token_ids: ids(&["1", "2"]) }]
    );
    assert_eq!(response.history, vec![History { amount: 2, date: 140, action: Action::Withdraw }]);
    assert_eq!(
        try_withdraw_no_reward(&mut state, &mut staked, &mut nfts, 140, &text("alice")),
        Err(ContractError::NothingStaked)
    );
}

#[test]
fn eject_is_for_the_owner() {
    let mut state = pool(vec![stream("a", "ra", 86_400, 1000)], 4);
    let mut staked = position(2, 100);
    let mut nfts = ids(&["1", "2"]);
    let before = state.clone();
    assert_eq!(
        try_eject(&mut state, &mut staked, &mut nfts, 140, &text("alice"), &text("alice")),
        Err(ContractError::Unauthorized)
    );
    assert_eq!(state, before);
    let response =
        try_eject(&mut state, &mut staked, &mut nfts, 140, &text("owner"), &text("alice"))
            .unwrap();
    assert_eq!(state.reward_contracts[0].total_rewards, 1000);
    assert_eq!(state.total_staked_amount, 2);
    assert_eq!(staked, Staked::empty());
    assert_eq!(
        response.messages,
        vec![Transfer::Collateral { recipient: text("alice"), token_ids: ids(&["1", "2"]) }]
    );
    assert_eq!(response.history, vec![History { amount: 2, date: 140, action: Action::Withdraw }]);
    assert_eq!(
        try_eject(&mut state, &mut staked, &mut nfts, 140, &text("owner"), &text("alice")),
        Err(ContractError::NothingStaked)
    );
}

#[test]
fn totals_follow_the_positions() {
    let mut state = pool(vec![stream("a", "ra", 86_400, 1_000_000)], 0);
    let (mut alice, mut bob) = (Staked::empty(), Staked::empty());
    let (mut alice_nfts, mut bob_nfts): (Vec<String>, Vec<String>) = (vec![], vec![]);
    let nft = text("nft");
    try_batch_receive(
        &mut state, &mut alice, &mut alice_nfts, 10, &nft, &text("alice"), ids(&["1", "2", "3"]),
        &vec![],
    )
    .unwrap();
    assert_eq!(state.total_staked_amount, alice.staked_amount + bob.staked_amount);
    try_batch_receive(
        &mut state, &mut bob, &mut bob_nfts, 20, &nft, &text("bob"), ids(&["4"]), &vec![],
    )
    .unwrap();
    assert_eq!(state.total_staked_amount, alice.staked_amount + bob.staked_amount);
    try_withdraw_with_quantity(&mut state, &mut alice, &mut alice_nfts, 30, &text("alice"), 2)
        .unwrap();
    assert_eq!(state.total_staked_amount, alice.staked_amount + bob.staked_amount);
    try_claim_rewards(&mut state, &mut bob, 40, &text("bob")).unwrap();
    assert_eq!(state.total_staked_amount, alice.staked_amount + bob.staked_amount);
    try_withdraw(&mut state, &mut bob, &mut bob_nfts, 50, &text("bob")).unwrap();
    assert_eq!(state.total_staked_amount, alice.staked_amount + bob.staked_amount);
    try_eject(&mut state, &mut alice, &mut alice_nfts, 60, &text("owner"), &text("alice"))
        .unwrap();
    assert_eq!(state.total_staked_amount, 0);
    assert_eq!(alice.staked_amount + bob.staked_amount, 0);
}

#[test]
fn settlement_time_never_goes_back() {
    let mut state = pool(vec![stream("a", "ra", 86_400, 1_000_000)], 0);
    let mut staked = Staked::empty();
    let mut nfts: Vec<String> = vec![];
    let nft = text("nft");
    let alice = text("alice");
    try_batch_receive(&mut state, &mut staked, &mut nfts, 10, &nft, &alice, ids(&["1"]), &vec![])
        .unwrap();
    assert_eq!(staked.settlement_time(), Some(10));
    try_claim_rewards(&mut state, &mut staked, 25, &alice).unwrap();
    assert_eq!(staked.settlement_time(), Some(25));
    // nothing accrues at the moment of the claim, so nothing is paid on the way
    try_batch_receive(&mut state, &mut staked, &mut nfts, 25, &nft, &alice, ids(&["2"]), &vec![])
        .unwrap();
    assert_eq!(staked.settlement_time(), Some(25));
    try_batch_receive(&mut state, &mut staked, &mut nfts, 30, &nft, &alice, ids(&["3"]), &vec![])
        .unwrap();
    assert_eq!(staked.settlement_time(), Some(30));
    try_withdraw_with_quantity(&mut state, &mut staked, &mut nfts, 31, &alice, 1).unwrap();
    assert_eq!(staked.settlement_time(), Some(31));
}

#[test]
fn error_messages() {
    assert_eq!(ContractError::InactivePool.message(), "You cannot perform this action right now");
    assert_eq!(
        ContractError::IneligibleCollateral.message(),
        "This NFT does not meet the requirements"
    );
    assert_eq!(ContractError::NothingToClaim.message(), "There is nothing to claim");
    assert_eq!(Action::Stake.label(), "stake");
    assert_eq!(Action::Claim.label(), "claim");
    assert_eq!(Action::Withdraw.label(), "withdraw");
}

#[test]
fn fund_and_drain_by_stream_name() {
    let mut state = pool(vec![stream("a", "ra", 1, 5), stream("b", "rb", 1, 7)], 0);
    let before = state.clone();
    assert_eq!(fund(&mut state, &text("c"), 1), Err(ContractError::UnknownStream));
    assert_eq!(fund(&mut state, &text("b"), u128::MAX), Err(ContractError::Overflow));
    assert_eq!(drain(&mut state, &text("alice"), &text("b")), Err(ContractError::Unauthorized));
    assert_eq!(drain(&mut state, &text("owner"), &text("c")), Err(ContractError::UnknownStream));
    assert_eq!(state, before);
    let response = fund(&mut state, &text("b"), 13).unwrap();
    assert!(response.messages.is_empty() && response.history.is_empty());
    assert_eq!(state.reward_contracts[0].total_rewards, 5);
    assert_eq!(state.reward_contracts[1].total_rewards, 20);
    let response = drain(&mut state, &text("owner"), &text("b")).unwrap();
    assert_eq!(
        response.messages,
        vec![Transfer::Reward { stream: 1, recipient: text("owner"), amount: 20 }]
    );
    assert!(response.history.is_empty());
    assert_eq!(state.reward_contracts[0].total_rewards, 5);
    assert_eq!(state.reward_contracts[1].total_rewards, 0);
}

#[test]
fn dimension_totals_follow_the_contributions() {
    let mut state = weighted(pool(vec![stream("a", "ra", 86_400, 1_000_000)], 0));
    for dimension in state.staking_weights.as_mut().unwrap().iter_mut() {
        dimension.amount = 0;
    }
    let (mut alice, mut bob) = (Staked::empty(), Staked::empty());
    let (mut alice_nfts, mut bob_nfts): (Vec<String>, Vec<String>) = (vec![], vec![]);
    let nft = text("nft");
    let contributed = |state: &State, positions: [&Staked; 2]| {
        for dimension in state.staking_weights.as_ref().unwrap() {
            let sum: u128 = positions
                .iter()
                .map(|p| {
                    p.staking_weights
                        .iter()
                        .flatten()
                        .find(|w| w.weight_trait_type == dimension.weight_trait_type)
                        .map(|w| w.amount)
                        .unwrap_or(0)
                })
                .sum();
            assert_eq!(dimension.amount, sum);
        }
    };
    let first = vec![
        vec![attribute("Pack", "11"), attribute("Pack Rank", "100")],
        vec![attribute("Pack", "2"), attribute("Pack Rank", "50")],
    ];
    try_batch_receive(
        &mut state, &mut alice, &mut alice_nfts, 10, &nft, &text("alice"), ids(&["1", "2"]),
        &first,
    )
    .unwrap();
    contributed(&state, [&alice, &bob]);
    let second = vec![vec![attribute("Pack", "7"), attribute("Pack Rank", "9")]];
    try_batch_receive(
        &mut state, &mut bob, &mut bob_nfts, 20, &nft, &text("bob"), ids(&["3"]), &second,
    )
    .unwrap();
    contributed(&state, [&alice, &bob]);
    try_batch_receive(
        &mut state, &mut alice, &mut alice_nfts, 30, &nft, &text("alice"), ids(&["4"]), &second,
    )
    .unwrap();
    contributed(&state, [&alice, &bob]);
    assert_eq!(state.staking_weights.as_ref().unwrap()[0].amount, 27);
    assert_eq!(state.staking_weights.as_ref().unwrap()[1].amount, 168);
    try_withdraw_with_quantity(&mut state, &mut alice, &mut alice_nfts, 40, &text("alice"), 3)
        .unwrap();
    contributed(&state, [&alice, &bob]);
    assert_eq!(alice, Staked::empty());
    try_eject(&mut state, &mut bob, &mut bob_nfts, 50, &text("owner"), &text("bob")).unwrap();
    contributed(&state, [&alice, &bob]);
    assert_eq!(state.staking_weights.as_ref().unwrap()[0].amount, 0);
    assert_eq!(state.staking_weights.as_ref().unwrap()[1].amount, 0);
    assert_eq!(state.total_staked_amount, 0);
}

#[test]
fn withdrawal_of_nothing_settles_the_position() {
    let mut state = pool(vec![stream("a", "ra", 86_400, 1000)], 2);
    let mut staked = position(2, 100);
    let mut nfts = ids(&["1", "2"]);
    let response =
        try_withdraw_with_quantity(&mut state, &mut staked, &mut nfts, 110, &text("alice"), 0)
            .unwrap();
    assert_eq!(state.total_staked_amount, 2);
    assert_eq!(state.reward_contracts[0].total_rewards, 990);
    assert_eq!(nfts, ids(&["1", "2"]));
    assert_eq!(staked.staked_amount, 2);
    assert_eq!(staked.last_staked_date, Some(110));
    assert_eq!(
        response.messages,
        vec![
            Transfer::Reward { stream: 0, recipient: text("alice"), amount: 10 },
            Transfer::Collateral { recipient: text("alice"), token_ids: vec![] },
        ]
    );
    assert_eq!(
        response.history,
        vec![
            History { amount: 10, date: 110, action: Action::Claim },
            History { amount: 2, date: 110, action: Action::Withdraw },
        ]
    );
}

#[test]
fn percentage_counts_by_its_low_64_bits() {
    let mut state = weighted(pool(vec![stream("a", "ra", 86_400, 0)], 10));
    let mut staked = position(1, 0);
    staked.staking_weights =
        Some(vec![UserStakingWeight { amount: 33, weight_trait_type: text("Pack") }]);
    assert_eq!(get_estimated_rewards(&staked, &400, &state).unwrap()[0].estimated_rewards, 200);
    state.staking_weights.as_mut().unwrap()[0].weight_percentage = (1u128 << 64) + 25;
    assert_eq!(get_estimated_rewards(&staked, &400, &state).unwrap()[0].estimated_rewards, 100);
}

#[test]
fn withdrawal_beyond_the_counted_stake_is_refused() {
    let mut state = pool(vec![], 6);
    let mut staked = position(1, 100);
    let mut nfts = ids(&["1", "2", "3"]);
    assert_eq!(
        try_withdraw_with_quantity(&mut state, &mut staked, &mut nfts, 140, &text("alice"), 2),
        Err(ContractError::InsufficientStake)
    );
    assert_eq!(state.total_staked_amount, 6);
    assert_eq!(nfts, ids(&["1", "2", "3"]));
}

#[test]
fn attributes_are_read_where_the_pool_restricts_or_weighs() {
    let plain = pool(vec![], 0);
    assert!(!reads_attributes(&plain));
    assert!(reads_attributes(&weighted(plain.clone())));
    let mut restricted = plain;
    restricted.trait_restriction = Some(text("Alpha"));
    assert!(reads_attributes(&restricted));
}
