//! Client-side core of a confidential constant-product AMM: fee and swap
//! pricing, pool-ratio rebalancing, threshold commitments, proof wire
//! encoding and the order finalize state machine.

pub mod account;
pub mod encoding;
pub mod error;
pub mod fee_math;
pub mod instruction;
pub mod lifecycle;
pub mod state;
pub mod text;
pub mod quote;
pub mod amm;
pub mod commitment;
pub mod proof_format;
pub mod transfer_fee;
pub mod wide;
pub mod swap_math;

pub use amm::{create_darklake_amm, DarklakeAmm, DARKLAKE_PROGRAM_ID};
pub use state::SwapMode;
