//! The pool's configuration and aggregates.

use crate::msg::{ContractInfo, RewardsContractInfo, StakingWeight};
use vstd::prelude::*;

verus! {

/// Everything the pool knows that is not a single participant's.
#[derive(Clone, Debug, PartialEq, Eq)]
pub struct State {
    pub owner: String,
    pub is_active: bool,
    pub staking_contract: ContractInfo,
    pub reward_contracts: Vec<RewardsContractInfo>,
    pub viewing_key: Option<String>,
    /// The sum of `staked_amount` over all positions.
    pub total_staked_amount: u128,
    /// When set, only items that carry this trait may be deposited.
    pub trait_restriction: Option<String>,
    /// When set, rewards are shared by weight in these dimensions.
    pub staking_weights: Option<Vec<StakingWeight>>,
}

impl State {
    /// The pool's weighting dimensions; none where rewards are shared by
    /// quantity.
    pub open spec fn dimensions(&self) -> Seq<StakingWeight> {
        match self.staking_weights {
            Some(dimensions) => dimensions@,
            None => Seq::empty(),
        }
    }
}

} // verus!
