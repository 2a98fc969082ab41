//! Reward-text recognition for the relic reward screen: pixel classification,
//! region filtering, catalog matching and the decisions of the recognition
//! pipeline, each with a machine-checked contract.

pub mod color;
pub mod config;
pub mod engine;
pub mod error;
pub mod filter;
pub mod matcher;
pub mod ratio;
pub mod region;
pub mod worker;
