//! A constant-product liquidity pool engine: pool configuration and lifecycle
//! state, curve arithmetic, account validation and the settlement plans of the
//! four pool operations, each with a machine-checked contract.

pub mod codec;
pub mod curve;
pub mod errors;
pub mod helpers;
pub mod instructions;
pub mod math;
pub mod pda;
pub mod programs;
pub mod pubkey;
pub mod settlement;
pub mod state;
