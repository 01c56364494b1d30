//! Verified core of a crowdfunding platform: campaigns that collect
//! contributions towards a goal before a deadline, and a factory that keeps a
//! registry of the campaigns it created.

pub mod error;
pub mod ledger;
pub mod campaign;
pub mod factory;
pub mod laws;
