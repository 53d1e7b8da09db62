//! An escrow ledger for funding campaigns: an owner declares a goal, donors
//! contribute toward it, and the collected value is released to the owner
//! when the contributions exactly meet the goal.
pub mod contract;
pub mod funding;
pub mod ledger;
pub mod lifecycle;
