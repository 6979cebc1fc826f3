//! A deterministic state-transition core for a ledger of staked,
//! user-generated content.
//!
//! An account creates a post by reserving a fixed stake of its balance;
//! a designated governance identity tunes the economic parameters that
//! govern staking costs and content limits. Every operation either applies
//! in full or leaves the state untouched.

pub mod chain_config;
pub mod dispatch;
pub mod ledger;
pub mod origin;
pub mod posts;
