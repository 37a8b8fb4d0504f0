use stake_engine::contract::{instantiate, query_my_staked, query_staked};
use stake_engine::dispatch::{execute, Books};
use stake_engine::error::ContractError;
use stake_engine::manager;
use stake_engine::msg::{
    Action, ContractInfo, ExecuteMsg, HandleReceiveMsg, History, InstantiateMsg,
    RewardsContractInfo, Staked, StakingWeight, Trait, Transfer, ViewerInfo,
};
use stake_engine::token;
use stake_engine::viewing_key::{check_admin_key, try_set_viewing_key, viewing_key};

fn text(s: &str) -> String {
    s.to_string()
}

fn collection() -> ContractInfo {
    ContractInfo {
        code_hash: text("nft-hash"),
        address: text("nft"),
        name: text("collection"),
        stake_type: text("nft"),
    }
}

fn stream(name: &str, address: &str, rate: u128, reserve: u128) -> RewardsContractInfo {
    RewardsContractInfo {
        code_hash: text("hash"),
        address: text(address),
        rewards_per_day: rate,
        name: text(name),
        total_rewards: reserve,
    }
}

fn setup() -> InstantiateMsg {
    InstantiateMsg {
        entropy: text("sec721"),
        staking_contract: collection(),
        reward_contracts: vec![stream("a", "ra", 86_400, 0)],
        trait_restriction: Some(text("Alpha")),
        staking_weights: Some(vec![StakingWeight {
            amount: 33,
            weight_trait_type: text("Pack"),
            weight_percentage: 50,
        }]),
    }
}

fn books() -> Books {
    let mut msg = setup();
    msg.trait_restriction = None;
    msg.staking_weights = None;
    Books {
        state: instantiate(text("owner"), msg),
        admin_key: None,
        staked: Staked::empty(),
        staked_nfts: vec![],
    }
}

#[test]
fn viewing_key_is_base64_of_sha256_of_base64() {
    assert_eq!(viewing_key(&text("sec721")), "qUp5XkC9vvaxqDZaA8OvhVy5ha/q15Wns/IHhdmtw7k=");
    assert_eq!(viewing_key(&text("")), "47DEQpj8HBSa+/TImW+5JCeuQeRkm5NMpJWZG3hSuFU=");
    assert_eq!(
        viewing_key(&text("hello world")),
        "3JwcCZB8NvU3nWFa5hwCtGuiVNku23fLY73MUkfM0Bw="
    );
}

#[test]
fn instantiate_sets_up_an_empty_active_pool() {
    let state = instantiate(text("owner"), setup());
    assert_eq!(state.owner, "owner");
    assert!(state.is_active);
    assert_eq!(state.staking_contract, collection());
    assert_eq!(state.reward_contracts, vec![stream("a", "ra", 86_400, 0)]);
    assert_eq!(state.viewing_key, Some(text("qUp5XkC9vvaxqDZaA8OvhVy5ha/q15Wns/IHhdmtw7k=")));
    assert_eq!(state.total_staked_amount, 0);
    assert_eq!(state.trait_restriction, Some(text("Alpha")));
    assert_eq!(state.staking_weights, setup().staking_weights);
}

#[test]
fn admin_key_opens_only_with_the_right_key_and_address() {
    let state = instantiate(text("owner"), setup());
    let mut admin_key: Option<ViewerInfo> = None;
    let shown = ViewerInfo { address: text("owner"), viewing_key: text("sec721") };
    assert_eq!(check_admin_key(&admin_key, &shown), Err(ContractError::Unauthorized));
    assert_eq!(
        try_set_viewing_key(&state.owner, &mut admin_key, &text("someone"), text("sec721")),
        Err(ContractError::Unauthorized)
    );
    assert_eq!(admin_key, None);
    try_set_viewing_key(&state.owner, &mut admin_key, &text("owner"), text("sec721")).unwrap();
    assert_eq!(
        admin_key,
        Some(ViewerInfo {
            address: text("owner"),
            viewing_key: text("qUp5XkC9vvaxqDZaA8OvhVy5ha/q15Wns/IHhdmtw7k="),
        })
    );
    assert_eq!(check_admin_key(&admin_key, &shown), Ok(()));
    let wrong_key = ViewerInfo { address: text("owner"), viewing_key: text("sec722") };
    assert_eq!(check_admin_key(&admin_key, &wrong_key), Err(ContractError::Unauthorized));
    let wrong_address = ViewerInfo { address: text("other"), viewing_key: text("sec721") };
    assert_eq!(check_admin_key(&admin_key, &wrong_address), Err(ContractError::Unauthorized));
}

#[test]
fn pool_info_shows_the_configuration() {
    let state = instantiate(text("owner"), setup());
    let info = query_staked(state.clone());
    assert_eq!(info.total_staked_amount, 0);
    assert_eq!(info.staking_contract, state.staking_contract);
    assert_eq!(info.reward_contracts, Some(state.reward_contracts));
    assert_eq!(info.trait_restriction, state.trait_restriction);
    assert_eq!(info.staking_weights, state.staking_weights);
    assert_eq!(info.is_active, Some(true));
}

#[test]
fn unknown_position_is_shown_empty() {
    let mut state = books().state;
    state.total_staked_amount = 4;
    let info = query_my_staked(&state, None, 1_000).unwrap();
    assert_eq!(
        info.staked,
        Staked {
            staked_amount: 0,
            last_claimed_date: None,
            last_staked_date: None,
            staking_weights: None,
        }
    );
    assert_eq!(info.estimated_rewards.len(), 1);
    assert_eq!(info.estimated_rewards[0].estimated_rewards, 0);
    let held = Staked {
        staked_amount: 2,
        last_claimed_date: None,
        last_staked_date: Some(900),
        staking_weights: Some(vec![]),
    };
    let info = query_my_staked(&state, Some(held.clone()), 1_000).unwrap();
    assert_eq!(info.staked, held);
    assert_eq!(info.estimated_rewards[0].estimated_rewards, 50);
    assert_eq!(query_my_staked(&state, Some(held), 800), Err(ContractError::Overflow));
}

#[test]
fn execute_dispatches_every_message() {
    let mut books = books();
    let (owner, alice, nft) = (text("owner"), text("alice"), text("nft"));
    let no_metadata: Vec<Vec<Trait>> = vec![];

    let fund = ExecuteMsg::Receive {
        sender: text("x"),
        from: text("x"),
        amount: 1_000,
        msg: Some(HandleReceiveMsg::ReceiveRewards {}),
    };
    execute(&mut books, 0, &text("ra"), fund, &no_metadata).unwrap();
    assert_eq!(books.state.reward_contracts[0].total_rewards, 1_000);

    let arrive = ExecuteMsg::BatchReceiveNft {
        from: alice.clone(),
        token_ids: vec![text("1"), text("2")],
    };
    assert_eq!(arrive.account(&nft), "alice");
    let response = execute(&mut books, 100, &nft, arrive, &no_metadata).unwrap();
    assert_eq!(response.history, vec![History { amount: 2, date: 100, action: Action::Stake }]);
    assert_eq!(books.staked.staked_amount, 2);
    assert_eq!(books.state.total_staked_amount, 2);

    let response =
        execute(&mut books, 110, &alice, ExecuteMsg::ClaimRewards {}, &no_metadata).unwrap();
    assert_eq!(
        response.messages,
        vec![Transfer::Reward { stream: 0, recipient: alice.clone(), amount: 10 }]
    );
    assert_eq!(books.state.reward_contracts[0].total_rewards, 990);

    let part = ExecuteMsg::WithdrawFundsWithQuantity { quantity: 1 };
    assert_eq!(part.account(&alice), "alice");
    execute(&mut books, 110, &alice, part, &no_metadata).unwrap();
    assert_eq!(books.staked_nfts, vec![text("2")]);

    let eject = ExecuteMsg::Eject { staker: alice.clone() };
    assert_eq!(eject.account(&owner), "alice");
    assert_eq!(
        execute(&mut books, 120, &alice, eject.clone(), &no_metadata),
        Err(ContractError::Unauthorized)
    );
    execute(&mut books, 120, &owner, eject, &no_metadata).unwrap();
    assert_eq!(books.staked, Staked::empty());
    assert_eq!(books.state.total_staked_amount, 0);

    assert_eq!(
        execute(&mut books, 130, &alice, ExecuteMsg::WithdrawFunds {}, &no_metadata),
        Err(ContractError::NothingStaked)
    );
    assert_eq!(
        execute(&mut books, 130, &alice, ExecuteMsg::WithdrawFundsNoReward {}, &no_metadata),
        Err(ContractError::NothingStaked)
    );

    let pause = ExecuteMsg::SetActiveState { is_active: false };
    assert_eq!(
        execute(&mut books, 130, &alice, pause.clone(), &no_metadata),
        Err(ContractError::Unauthorized)
    );
    execute(&mut books, 130, &owner, pause, &no_metadata).unwrap();
    assert!(!books.state.is_active);

    let replace = ExecuteMsg::UpdateRewardContract { contracts: vec![] };
    assert_eq!(
        execute(&mut books, 130, &owner, replace.clone(), &no_metadata),
        Err(ContractError::NonZeroReserve)
    );
    let response =
        execute(&mut books, 130, &owner, ExecuteMsg::RemoveRewards {}, &no_metadata).unwrap();
    assert_eq!(
        response.messages,
        vec![Transfer::Reward { stream: 0, recipient: owner.clone(), amount: 990 }]
    );
    execute(&mut books, 130, &owner, replace, &no_metadata).unwrap();
    assert!(books.state.reward_contracts.is_empty());

    let key = ExecuteMsg::SetViewingKey { key: text("sec721") };
    execute(&mut books, 130, &owner, key, &no_metadata).unwrap();
    assert_eq!(
        books.admin_key.clone().unwrap().viewing_key,
        "qUp5XkC9vvaxqDZaA8OvhVy5ha/q15Wns/IHhdmtw7k="
    );

    let before = books.state.clone();
    let revoke = ExecuteMsg::RevokePermit { permit_name: text("p") };
    let response = execute(&mut books, 130, &alice, revoke, &no_metadata).unwrap();
    assert!(response.messages.is_empty() && response.history.is_empty());
    assert_eq!(books.state, before);
}

fn token_pool() -> token::State {
    token::State {
        owner: text("owner"),
        is_active: true,
        staking_contract: ContractInfo {
            code_hash: text("h"),
            address: text("coin"),
            name: text("coin"),
            stake_type: text("token"),
        },
        reward_contract: token::RewardsContractInfo {
            code_hash: text("h"),
            address: text("reward"),
            rewards_per_day: 86_400,
        },
        viewing_key: None,
        total_staked_amount: 0,
        total_rewards: 0,
    }
}

#[test]
fn token_pool_stake_claim_withdraw() {
    let mut state = token_pool();
    let mut staked = Staked::empty();
    let (coin, reward, alice) = (text("coin"), text("reward"), text("alice"));
    let stake = Some(token::HandleReceiveMsg::ReceiveStake {});
    let fund = Some(token::HandleReceiveMsg::ReceiveRewards {});

    token::receive(&mut state, &mut staked, 0, &reward, &reward, &reward, 1_000, fund).unwrap();
    assert_eq!(state.total_rewards, 1_000);

    let response =
        token::receive(&mut state, &mut staked, 100, &coin, &alice, &alice, 50, stake).unwrap();
    assert_eq!(response.history, vec![History { amount: 50, date: 100, action: Action::Stake }]);
    assert!(response.messages.is_empty());
    assert_eq!(state.total_staked_amount, 50);
    assert_eq!(staked.staked_amount, 50);
    assert_eq!(staked.last_staked_date, Some(100));
    assert_eq!(token::estimate(&state, &staked, 130), Some(30));

    let response =
        token::receive(&mut state, &mut staked, 130, &coin, &alice, &alice, 50, stake).unwrap();
    assert_eq!(
        response.history,
        vec![
            History { amount: 30, date: 130, action: Action::Claim },
            History { amount: 50, date: 130, action: Action::Stake },
        ]
    );
    assert_eq!(
        response.messages,
        vec![Transfer::Reward { stream: 0, recipient: alice.clone(), amount: 30 }]
    );
    assert_eq!(state.total_rewards, 970);
    assert_eq!(staked.staked_amount, 100);
    assert_eq!(staked.last_claimed_date, Some(130));

    assert_eq!(
        token::try_claim_rewards(&mut state, &mut staked, 130, &alice),
        Err(ContractError::NothingToClaim)
    );
    let response = token::try_claim_rewards(&mut state, &mut staked, 140, &alice).unwrap();
    assert_eq!(response.history, vec![History { amount: 10, date: 140, action: Action::Claim }]);
    assert_eq!(state.total_rewards, 960);
    assert_eq!(staked.last_claimed_date, Some(140));

    let response = token::try_withdraw(&mut state, &mut staked, 150, &alice).unwrap();
    assert_eq!(
        response.messages,
        vec![
            Transfer::Reward { stream: 0, recipient: alice.clone(), amount: 10 },
            Transfer::Stake { recipient: alice.clone(), amount: 100 },
        ]
    );
    assert_eq!(
        response.history,
        vec![
            History { amount: 10, date: 150, action: Action::Claim },
            History { amount: 100, date: 150, action: Action::Withdraw },
        ]
    );
    assert_eq!(state.total_staked_amount, 0);
    assert_eq!(state.total_rewards, 950);
    assert_eq!(staked.staked_amount, 0);
    assert_eq!(token::estimate(&state, &staked, 1_000_000), Some(0));
    assert_eq!(
        token::try_withdraw(&mut state, &mut staked, 150, &alice),
        Err(ContractError::NothingStaked)
    );
}

#[test]
fn token_pool_refusals() {
    let mut state = token_pool();
    let mut staked = Staked::empty();
    let (coin, reward, alice) = (text("coin"), text("reward"), text("alice"));
    let stake = Some(token::HandleReceiveMsg::ReceiveStake {});
    let fund = Some(token::HandleReceiveMsg::ReceiveRewards {});
    assert_eq!(
        token::receive(&mut state, &mut staked, 0, &coin, &alice, &alice, 5, None),
        Err(ContractError::MissingPayload)
    );
    assert_eq!(
        token::receive(&mut state, &mut staked, 0, &reward, &alice, &alice, 5, stake),
        Err(ContractError::UnauthorizedSource)
    );
    assert_eq!(
        token::receive(&mut state, &mut staked, 0, &coin, &alice, &alice, 5, fund),
        Err(ContractError::UnknownStream)
    );
    state.is_active = false;
    assert_eq!(
        token::receive(&mut state, &mut staked, 0, &coin, &alice, &alice, 5, stake),
        Err(ContractError::InactivePool)
    );
    assert_eq!(state.total_staked_amount, 0);
    assert_eq!(staked, Staked::empty());

    let mut state = token_pool();
    state.total_staked_amount = 1;
    state.total_rewards = 9;
    let mut staked = Staked {
        staked_amount: 1,
        last_claimed_date: None,
        last_staked_date: Some(0),
        staking_weights: None,
    };
    assert_eq!(
        token::try_claim_rewards(&mut state, &mut staked, 10, &alice),
        Err(ContractError::InsufficientReserve)
    );
    assert_eq!(state.total_rewards, 9);
    assert_eq!(staked.last_claimed_date, None);
}

#[test]
fn token_pool_owner_operations() {
    let mut state = token_pool();
    state.total_rewards = 7;
    let (owner, alice) = (text("owner"), text("alice"));
    let next = token::RewardsContractInfo {
        code_hash: text("h2"),
        address: text("reward2"),
        rewards_per_day: 1,
    };
    assert_eq!(
        token::try_update_reward_contract(&mut state, &alice, next.clone()),
        Err(ContractError::Unauthorized)
    );
    assert_eq!(
        token::try_update_reward_contract(&mut state, &owner, next.clone()),
        Err(ContractError::NonZeroReserve)
    );
    assert_eq!(token::try_remove_rewards(&mut state, &alice), Err(ContractError::Unauthorized));
    let response = token::try_remove_rewards(&mut state, &owner).unwrap();
    assert_eq!(
        response.messages,
        vec![Transfer::Reward { stream: 0, recipient: owner.clone(), amount: 7 }]
    );
    assert_eq!(state.total_rewards, 0);
    token::try_update_reward_contract(&mut state, &owner, next.clone()).unwrap();
    assert_eq!(state.reward_contract, next);
    assert_eq!(
        token::try_set_active_state(&mut state, &alice, false),
        Err(ContractError::Unauthorized)
    );
    token::try_set_active_state(&mut state, &owner, false).unwrap();
    assert!(!state.is_active);
}

fn pool_at(address: &str) -> ContractInfo {
    ContractInfo {
        code_hash: text("h"),
        address: text(address),
        name: text("pool"),
        stake_type: text("nft"),
    }
}

#[test]
fn registry_lists_each_address_once() {
    let mut state = manager::instantiate(text("owner"), vec![pool_at("a")]);
    let (owner, alice) = (text("owner"), text("alice"));
    assert!(state.is_active);
    assert_eq!(
        manager::try_add_contract(&mut state, &alice, pool_at("b")),
        Err(ContractError::Unauthorized)
    );
    assert_eq!(
        manager::try_add_contract(&mut state, &owner, pool_at("a")),
        Err(ContractError::ContractExists)
    );
    manager::try_add_contract(&mut state, &owner, pool_at("b")).unwrap();
    manager::try_add_contract(&mut state, &owner, pool_at("c")).unwrap();
    assert_eq!(state.staking_contracts, vec![pool_at("a"), pool_at("b"), pool_at("c")]);
    assert_eq!(
        manager::try_remove_contract(&mut state, &owner, pool_at("z")),
        Err(ContractError::ContractMissing)
    );
    assert_eq!(
        manager::try_remove_contract(&mut state, &alice, pool_at("b")),
        Err(ContractError::Unauthorized)
    );
    manager::try_remove_contract(&mut state, &owner, pool_at("b")).unwrap();
    assert_eq!(state.staking_contracts, vec![pool_at("a"), pool_at("c")]);
    assert_eq!(
        manager::try_set_active_state(&mut state, &alice, false),
        Err(ContractError::Unauthorized)
    );
    manager::try_set_active_state(&mut state, &owner, false).unwrap();
    assert!(!state.is_active);
    assert_eq!(manager::query_contracts(state), vec![pool_at("a"), pool_at("c")]);
    assert_eq!(
        manager::StakedInfoQueryMsg::GetStakedInfo {},
        manager::StakedInfoQueryMsg::GetStakedInfo {}
    );
}

#[test]
fn token_pool_execute_dispatches_every_message() {
    let state = token::instantiate(
        text("owner"),
        text("sec721"),
        token_pool().staking_contract,
        token_pool().reward_contract,
    );
    assert_eq!(state.viewing_key, Some(text("qUp5XkC9vvaxqDZaA8OvhVy5ha/q15Wns/IHhdmtw7k=")));
    assert_eq!(state.total_staked_amount, 0);
    assert_eq!(state.total_rewards, 0);
    assert!(state.is_active);
    let mut books = token::Books { state, admin_key: None, staked: Staked::empty() };
    let (owner, alice, coin, reward) = (text("owner"), text("alice"), text("coin"), text("reward"));

    let fund = token::ExecuteMsg::Receive {
        sender: reward.clone(),
        from: reward.clone(),
        amount: 500,
        msg: Some(token::HandleReceiveMsg::ReceiveRewards {}),
    };
    token::execute(&mut books, 0, &reward, fund).unwrap();
    assert_eq!(books.state.total_rewards, 500);

    let stake = token::ExecuteMsg::Receive {
        sender: alice.clone(),
        from: alice.clone(),
        amount: 10,
        msg: Some(token::HandleReceiveMsg::ReceiveStake {}),
    };
    assert_eq!(stake.account(&coin), "alice");
    token::execute(&mut books, 100, &coin, stake).unwrap();
    assert_eq!(books.staked.staked_amount, 10);

    let response = token::execute(&mut books, 120, &alice, token::ExecuteMsg::ClaimRewards {})
        .unwrap();
    assert_eq!(response.history, vec![History { amount: 20, date: 120, action: Action::Claim }]);
    assert_eq!(books.state.total_rewards, 480);

    token::execute(&mut books, 120, &alice, token::ExecuteMsg::WithdrawFunds {}).unwrap();
    assert_eq!(books.staked.staked_amount, 0);
    assert_eq!(books.state.total_staked_amount, 0);

    let pause = token::ExecuteMsg::SetActiveState { is_active: false };
    assert_eq!(
        token::execute(&mut books, 130, &alice, pause.clone()),
        Err(ContractError::Unauthorized)
    );
    token::execute(&mut books, 130, &owner, pause).unwrap();
    assert!(!books.state.is_active);

    let next = token::RewardsContractInfo {
        code_hash: text("h2"),
        address: text("reward2"),
        rewards_per_day: 1,
    };
    let replace = token::ExecuteMsg::UpdateRewardContract { contract: next.clone() };
    assert_eq!(
        token::execute(&mut books, 130, &owner, replace.clone()),
        Err(ContractError::NonZeroReserve)
    );
    token::execute(&mut books, 130, &owner, token::ExecuteMsg::RemoveRewards {}).unwrap();
    assert_eq!(books.state.total_rewards, 0);
    token::execute(&mut books, 130, &owner, replace).unwrap();
    assert_eq!(books.state.reward_contract, next);

    let key = token::ExecuteMsg::SetViewingKey { key: text("hello world") };
    token::execute(&mut books, 130, &owner, key).unwrap();
    assert_eq!(
        books.admin_key.clone().unwrap().viewing_key,
        "3JwcCZB8NvU3nWFa5hwCtGuiVNku23fLY73MUkfM0Bw="
    );
    let revoke = token::ExecuteMsg::RevokePermit { permit_name: text("p") };
    let response = token::execute(&mut books, 130, &alice, revoke).unwrap();
    assert!(response.messages.is_empty() && response.history.is_empty());
}

#[test]
fn registry_execute_dispatches_every_message() {
    let mut state = manager::instantiate(text("owner"), vec![]);
    let owner = text("owner");
    let add = manager::ExecuteMsg::AddContract { contract: pool_at("a") };
    assert_eq!(
        manager::execute(&mut state, &text("alice"), add.clone()),
        Err(ContractError::Unauthorized)
    );
    manager::execute(&mut state, &owner, add.clone()).unwrap();
    assert_eq!(manager::execute(&mut state, &owner, add), Err(ContractError::ContractExists));
    let pause = manager::ExecuteMsg::SetActiveState { is_active: false };
    manager::execute(&mut state, &owner, pause).unwrap();
    assert!(!state.is_active);
    let remove = manager::ExecuteMsg::RemoveContract { contract: pool_at("a") };
    manager::execute(&mut state, &owner, remove.clone()).unwrap();
    assert!(state.staking_contracts.is_empty());
    assert_eq!(manager::execute(&mut state, &owner, remove), Err(ContractError::ContractMissing));
}
