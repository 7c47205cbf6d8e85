//! Control plane for a local regtest Bitcoin node: connection bootstrap,
//! descriptor-to-address resolution, block generation and paced payments,
//! written as verified decision logic that a thin driver executes.

pub mod address;
pub mod bitcoind;
pub mod decimal;
pub mod descriptor;
pub mod effect;
pub mod error;
pub mod gui;
pub mod message;
pub mod miner;
pub mod model;
pub mod pacing;
