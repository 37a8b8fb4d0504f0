use stake_engine::error::ContractError;
use stake_engine::msg::{
    ContractInfo, RewardsContractInfo, Staked, StakingWeight, UserStakingWeight,
};
use stake_engine::rewards::get_estimated_rewards;
use stake_engine::state::State;

fn pool(total_staked_amount: u128) -> State {
    State {
        owner: "".to_string(),
        is_active: true,
        staking_contract: ContractInfo {
            code_hash: "".to_string(),
            address: "".to_string(),
            name: "".to_string(),
            stake_type: "".to_string(),
        },
        reward_contracts: vec![RewardsContractInfo {
            code_hash: "".to_string(),
            address: "".to_string(),
            rewards_per_day: 2739000000u128,
            name: "".to_string(),
            total_rewards: 10000000000000u128,
        }],
        viewing_key: None,
        total_staked_amount,
        staking_weights: None,
        trait_restriction: None,
    }
}

#[test]
fn rewards_calc() {
    //rounding issue makes 1369500000 > 1369499999
    let mut expected = 13694999u128;
    let mut staked = Staked {
        staked_amount: 1u128,
        last_claimed_date: None,
        last_staked_date: Some(1686588696),
        staking_weights: None,
    };
    let current_time = 1686675096;
    let mut state = pool(200u128);
    let x = get_estimated_rewards(&staked, &current_time, &state);
    assert_eq!(x.unwrap()[0].estimated_rewards, expected);

    staked.staked_amount = 100u128;
    expected = 1369499999u128;
    let y = get_estimated_rewards(&staked, &current_time, &state);
    assert_eq!(y.unwrap()[0].estimated_rewards, expected);

    //test weights
    state.staking_weights = Some(vec![
        StakingWeight {
            amount: 33u128,
            weight_trait_type: "Pack".to_string(),
            weight_percentage: 50u128,
        },
        StakingWeight {
            amount: 20086u128,
            weight_trait_type: "Pack Rank".to_string(),
            weight_percentage: 50u128,
        },
    ]);
    state.total_staked_amount = 22322u128;

    staked.staked_amount = 10020u128;
    staked.staking_weights = Some(vec![
        UserStakingWeight {
            amount: 11u128,
            weight_trait_type: "Pack".to_string(),
        },
        UserStakingWeight {
            amount: 10043u128,
            weight_trait_type: "Pack Rank".to_string(),
        },
    ]);
    let z = get_estimated_rewards(&staked, &current_time, &state);
    expected = 1141249998u128;
    assert_eq!(z.unwrap()[0].estimated_rewards, expected);
}

fn position(amount: u128, weights: Option<Vec<UserStakingWeight>>) -> Staked {
    Staked {
        staked_amount: amount,
        last_claimed_date: None,
        last_staked_date: Some(0),
        staking_weights: weights,
    }
}

fn pool_paying(rate: u128, total_staked_amount: u128) -> State {
    let mut state = pool(total_staked_amount);
    state.reward_contracts[0].rewards_per_day = rate;
    state
}

fn amount(staked: &Staked, now: u64, state: &State) -> Result<u128, ContractError> {
    get_estimated_rewards(staked, &now, state).map(|rewards| rewards[0].estimated_rewards)
}

#[test]
fn uniform_amounts_round_down_at_every_step() {
    let one_third = pool_paying(1, 3);
    assert_eq!(amount(&position(1, None), 86_400 * 3, &one_third), Ok(0));
    assert_eq!(amount(&position(2, None), 86_399, &pool_paying(100, 3)), Ok(66));
    assert_eq!(
        amount(&position(3, None), 12_345, &pool_paying(100_000_000_000_000_000_000, 7)),
        Ok(6_123_511_904_761_904_755)
    );
}

#[test]
fn uniform_amounts_up_to_the_edge_of_the_range() {
    let state = pool_paying(86_400, 1);
    let large = position(100_000_000_000_000_000_000, None);
    assert_eq!(amount(&large, 3, &state), Ok(300_000_000_000_000_000_000));
    assert_eq!(amount(&large, 4, &state), Err(ContractError::Overflow));
    let too_large = position(400_000_000_000_000_000_000, None);
    assert_eq!(amount(&too_large, 1, &state), Err(ContractError::Overflow));
}

#[test]
fn weighted_amounts_round_down_at_every_step() {
    let mut state = pool_paying(123_456_789_012, 50);
    state.staking_weights = Some(vec![
        StakingWeight { amount: 19, weight_trait_type: "a".to_string(), weight_percentage: 37 },
        StakingWeight { amount: 101, weight_trait_type: "b".to_string(), weight_percentage: 63 },
    ]);
    let weights = Some(vec![
        UserStakingWeight { amount: 13, weight_trait_type: "b".to_string() },
        UserStakingWeight { amount: 7, weight_trait_type: "a".to_string() },
        UserStakingWeight { amount: 99, weight_trait_type: "a".to_string() },
    ]);
    assert_eq!(amount(&position(5, weights), 777, &state), Ok(241_374_606));

    let mut state = pool_paying(86_400 * 1000, 50);
    state.staking_weights = Some(vec![
        StakingWeight { amount: 3, weight_trait_type: "a".to_string(), weight_percentage: 33 },
        StakingWeight { amount: 3, weight_trait_type: "b".to_string(), weight_percentage: 67 },
    ]);
    let weights = Some(vec![
        UserStakingWeight { amount: 1, weight_trait_type: "a".to_string() },
        UserStakingWeight { amount: 1, weight_trait_type: "b".to_string() },
    ]);
    assert_eq!(amount(&position(5, weights), 1, &state), Ok(332));
}
