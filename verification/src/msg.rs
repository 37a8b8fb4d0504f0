//! The values that cross the pool's boundary: what callers send, what the pool
//! records, and what it answers.

use vstd::prelude::*;

verus! {

/// A contract the pool talks to: where collateral comes from.
#[derive(Clone, Debug, PartialEq, Eq)]
pub struct ContractInfo {
    pub code_hash: String,
    pub address: String,
    pub name: String,
    pub stake_type: String,
}

/// One reward stream: a daily rate and the reserve that funds it.
#[derive(Clone, Debug, PartialEq, Eq)]
pub struct RewardsContractInfo {
    pub code_hash: String,
    pub address: String,
    /// Reward units released per day, shared among all participants.
    pub rewards_per_day: u128,
    pub name: String,
    /// The reserve: reward units funded and not yet paid out.
    pub total_rewards: u128,
}

/// A weighting dimension of the pool.
#[derive(Clone, Debug, PartialEq, Eq)]
pub struct StakingWeight {
    /// The weight that all positions together contribute in this dimension.
    pub amount: u128,
    pub weight_trait_type: String,
    /// The part of every stream's rate that this dimension hands out, in
    /// percent.
    pub weight_percentage: u128,
}

/// What one position contributes in one weighting dimension.
#[derive(Clone, Debug, PartialEq, Eq)]
pub struct UserStakingWeight {
    pub amount: u128,
    pub weight_trait_type: String,
}

/// A participant's position.
#[derive(Clone, Debug, PartialEq, Eq)]
pub struct Staked {
    pub staked_amount: u128,
    pub last_claimed_date: Option<u64>,
    pub last_staked_date: Option<u64>,
    pub staking_weights: Option<Vec<UserStakingWeight>>,
}

/// What a history record is about.
#[derive(Clone, Copy, Debug, PartialEq, Eq, Structural)]
pub enum Action {
    Stake,
    Claim,
    Withdraw,
}

/// One line of a participant's history. Records are only ever appended.
#[derive(Clone, Copy, Debug, PartialEq, Eq, Structural)]
pub struct History {
    pub amount: u128,
    pub date: u64,
    pub action: Action,
}

/// What a position would be paid from one reward stream.
#[derive(Clone, Debug, PartialEq, Eq)]
pub struct EstimatedReward {
    pub estimated_rewards: u128,
    pub reward_contract_name: String,
}

/// The payload of a funding notice.
#[derive(Clone, Copy, Debug, PartialEq, Eq, Structural)]
pub enum HandleReceiveMsg {
    ReceiveRewards {  },
}

/// An address and the viewing key that goes with it.
#[derive(Clone, Debug, PartialEq, Eq)]
pub struct ViewerInfo {
    pub address: String,
    pub viewing_key: String,
}

/// What it takes to set up a pool.
#[derive(Clone, Debug, PartialEq, Eq)]
pub struct InstantiateMsg {
    pub entropy: String,
    pub staking_contract: ContractInfo,
    pub reward_contracts: Vec<RewardsContractInfo>,
    pub trait_restriction: Option<String>,
    pub staking_weights: Option<Vec<StakingWeight>>,
}

/// The pool as it shows itself to anyone.
#[derive(Clone, Debug, PartialEq, Eq)]
pub struct StakedInfoResponse {
    pub total_staked_amount: u128,
    pub staking_contract: ContractInfo,
    pub reward_contracts: Option<Vec<RewardsContractInfo>>,
    pub trait_restriction: Option<String>,
    pub staking_weights: Option<Vec<StakingWeight>>,
    pub is_active: Option<bool>,
}

/// A position as it shows itself to its participant, with what it would be
/// paid now.
#[derive(Clone, Debug, PartialEq, Eq)]
pub struct MyStakedInfoResponse {
    pub staked: Staked,
    pub estimated_rewards: Vec<EstimatedReward>,
}

/// What can be asked of a pool.
#[derive(Clone, Debug, PartialEq, Eq)]
pub enum ExecuteMsg {
    RevokePermit { permit_name: String },
    Receive { sender: String, from: String, amount: u128, msg: Option<HandleReceiveMsg> },
    BatchReceiveNft { from: String, token_ids: Vec<String> },
    WithdrawFunds {  },
    WithdrawFundsWithQuantity { quantity: u128 },
    WithdrawFundsNoReward {  },
    Eject { staker: String },
    ClaimRewards {  },
    UpdateRewardContract { contracts: Vec<RewardsContractInfo> },
    RemoveRewards {  },
    SetViewingKey { key: String },
    SetActiveState { is_active: bool },
}

/// One attribute of a collateral item, as its collection publishes it.
#[derive(Clone, Debug, PartialEq, Eq)]
pub struct Trait {
    pub trait_type: Option<String>,
    pub value: String,
}

/// An instruction for the custody layer. The pool emits it and does not wait
/// for the outcome.
#[derive(Clone, Debug, PartialEq, Eq)]
pub enum Transfer {
    /// Pay `amount` reward units of the stream at index `stream`.
    Reward { stream: usize, recipient: String, amount: u128 },
    /// Hand the listed collateral items back.
    Collateral { recipient: String, token_ids: Vec<String> },
    /// Hand `amount` of fungible collateral back.
    Stake { recipient: String, amount: u128 },
}

/// What a successful operation asks of the outside world.
#[derive(Clone, Debug, PartialEq, Eq)]
pub struct Response {
    /// Transfers to emit, in order.
    pub messages: Vec<Transfer>,
    /// Records to append to the participant's history, in order.
    pub history: Vec<History>,
}

impl Staked {
    /// The moment up to which the position is settled: the later of its last
    /// deposit and its last claim, where it has either.
    pub open spec fn last_settlement_time(&self) -> Option<u64> {
        match (self.last_claimed_date, self.last_staked_date) {
            (Some(claimed), Some(staked)) => Some(if claimed >= staked { claimed } else { staked }),
            (Some(claimed), None) => Some(claimed),
            (None, Some(staked)) => Some(staked),
            (None, None) => None,
        }
    }

    /// A position that holds collateral knows since when.
    pub open spec fn well_formed(&self) -> bool {
        self.staked_amount > 0 ==> self.last_settlement_time() is Some
    }

    /// What the position contributes in each weighting dimension; nothing
    /// where it records no weights.
    pub open spec fn weights(&self) -> Seq<UserStakingWeight> {
        match self.staking_weights {
            Some(weights) => weights@,
            None => Seq::empty(),
        }
    }

    /// The position of a participant who holds nothing.
    pub fn empty() -> (position: Staked)
        ensures
            position.staked_amount == 0,
            position.last_claimed_date is None,
            position.last_staked_date is None,
            position.staking_weights is Some,
            position.weights().len() == 0,
            position.well_formed(),
    {
        Staked {
            staked_amount: 0,
            last_claimed_date: None,
            last_staked_date: None,
            staking_weights: Some(Vec::new()),
        }
    }

    /// The moment up to which the position is settled.
    pub fn settlement_time(&self) -> (time: Option<u64>)
        ensures
            time == self.last_settlement_time(),
    {
        match (self.last_claimed_date, self.last_staked_date) {
            (Some(claimed), Some(staked)) => Some(if claimed >= staked { claimed } else { staked }),
            (Some(claimed), None) => Some(claimed),
            (None, Some(staked)) => Some(staked),
            (None, None) => None,
        }
    }
}

impl Action {
    /// The word under which the action is stored.
    pub fn label(&self) -> (text: String)
        ensures
            text@ == self.word()@,
    {
        match self {
            Action::Stake => "stake".to_string(),
            Action::Claim => "claim".to_string(),
            Action::Withdraw => "withdraw".to_string(),
        }
    }

    /// The word that `label` returns.
    pub open spec fn word(&self) -> &'static str {
        match self {
            Action::Stake => "stake",
            Action::Claim => "claim",
            Action::Withdraw => "withdraw",
        }
    }
}

} // verus!
