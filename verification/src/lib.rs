//! Reward accrual and settlement for staking pools.
//!
//! Participants deposit collateral into a pool and earn a time-weighted share of
//! one or more reward streams. The library computes what each participant is
//! owed, settles claims against the funded reserve of each stream, and keeps the
//! pool's aggregates in step with the positions.

pub mod contract;
pub mod decimal;
pub mod deposit;
pub mod dispatch;
pub mod error;
pub mod laws;
pub mod ledger;
pub mod manager;
pub mod msg;
pub mod rewards;
pub mod settle;
pub mod state;
pub mod token;
pub mod traits;
pub mod viewing_key;
pub mod withdraw;
