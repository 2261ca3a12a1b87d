//! A custodial engine for range-bound liquidity positions in an external pool
//! service: opening single-sided positions, harvesting converted bins (by a delegated
//! agent, or by anyone once the agent is stale), closing, and the timelocked
//! governance around it. Every operation is a verified transition over plain values;
//! the surrounding program performs the pool-service and token calls.

pub mod pubkey;
pub mod types;
pub mod fees;
pub mod state;
pub mod governance;
pub mod bins;
pub mod programs;
pub mod book;
pub mod engine;
pub mod laws;
pub mod dlmm;
pub mod pda;
