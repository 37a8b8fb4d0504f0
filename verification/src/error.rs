//! The ways an operation on a pool can be refused.

use vstd::prelude::*;

verus! {

/// Why an operation was refused. A refused operation changes nothing.
#[derive(Clone, Copy, Debug, PartialEq, Eq, Structural)]
pub enum ContractError {
    /// The caller is not the owner of the pool.
    Unauthorized,
    /// A deposit or funding notice came from a contract the pool does not know.
    UnauthorizedSource,
    /// A funding notice carried no payload.
    MissingPayload,
    /// The pool is paused.
    InactivePool,
    /// A deposited item lacks the trait the pool is restricted to.
    IneligibleCollateral,
    /// A deposited item has no usable value for a weighting dimension.
    MissingWeightTrait,
    /// More was asked back than the position holds.
    InsufficientStake,
    /// Nothing has accrued that could be claimed.
    NothingToClaim,
    /// A reward stream holds less than the claim on it.
    InsufficientReserve,
    /// Reward streams still hold reserves, so they cannot be replaced.
    NonZeroReserve,
    /// A partial withdrawal was asked of a pool with weighting dimensions.
    UnsupportedForWeightedPools,
    /// No reward stream matches.
    UnknownStream,
    /// The position holds nothing.
    NothingStaked,
    /// An amount could not be computed within the machine's integers.
    Overflow,
    /// The registry already lists the pool.
    ContractExists,
    /// The registry does not list the pool.
    ContractMissing,
}

impl ContractError {
    /// A sentence for the end user.
    pub fn message(&self) -> (text: String)
        ensures
            text@ == self.explanation()@,
    {
        match self {
            ContractError::Unauthorized => {
                "You don't have the permissions to execute this command".to_string()
            },
            ContractError::UnauthorizedSource => "Address is not correct snip contract".to_string(),
            ContractError::MissingPayload => "data should be given".to_string(),
            ContractError::InactivePool => "You cannot perform this action right now".to_string(),
            ContractError::IneligibleCollateral => {
                "This NFT does not meet the requirements".to_string()
            },
            ContractError::MissingWeightTrait => {
                "This NFT does not meet the weight requirements".to_string()
            },
            ContractError::InsufficientStake => {
                "You are trying to withdraw more than is staked".to_string()
            },
            ContractError::NothingToClaim => "There is nothing to claim".to_string(),
            ContractError::InsufficientReserve => "Error trying to claim rewards".to_string(),
            ContractError::NonZeroReserve => "Clear out rewards first before updating".to_string(),
            ContractError::UnsupportedForWeightedPools => {
                "Not supported for collections that have weighted staking".to_string()
            },
            ContractError::UnknownStream => {
                "Address is not correct reward snip contract".to_string()
            },
            ContractError::NothingStaked => "There is nothing to withdraw".to_string(),
            ContractError::Overflow => "Arithmetic overflow".to_string(),
            ContractError::ContractExists => "Contract already exists".to_string(),
            ContractError::ContractMissing => "Contract doesn't exist".to_string(),
        }
    }

    /// The sentence that `message` returns.
    pub open spec fn explanation(&self) -> &'static str {
        match self {
            ContractError::Unauthorized => "You don't have the permissions to execute this command",
            ContractError::UnauthorizedSource => "Address is not correct snip contract",
            ContractError::MissingPayload => "data should be given",
            ContractError::InactivePool => "You cannot perform this action right now",
            ContractError::IneligibleCollateral => "This NFT does not meet the requirements",
            ContractError::MissingWeightTrait => "This NFT does not meet the weight requirements",
            ContractError::InsufficientStake => "You are trying to withdraw more than is staked",
            ContractError::NothingToClaim => "There is nothing to claim",
            ContractError::InsufficientReserve => "Error trying to claim rewards",
            ContractError::NonZeroReserve => "Clear out rewards first before updating",
            ContractError::UnsupportedForWeightedPools => {
                "Not supported for collections that have weighted staking"
            },
            ContractError::UnknownStream => "Address is not correct reward snip contract",
            ContractError::NothingStaked => "There is nothing to withdraw",
            ContractError::Overflow => "Arithmetic overflow",
            ContractError::ContractExists => "Contract already exists",
            ContractError::ContractMissing => "Contract doesn't exist",
        }
    }
}

} // verus!
