//! A wagering-match engine: two parties lock a stake, play a short
//! commit-reveal game to a deterministic outcome, and the engine computes how
//! the pooled stake is redistributed. The engine is a pure state-transition
//! library: custody of funds and the movement of value are left to the caller,
//! which effects the `Payout` lists the engine returns.

pub mod commitment;
pub mod dice;
pub mod engine;
pub mod multi_round;
pub mod payout;
pub mod registry;
pub mod rounds;
pub mod rps;
pub mod rps_match;
pub mod rps_v2;
