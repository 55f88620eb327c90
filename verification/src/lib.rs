//! Verified accounting core of a collateralized-debt-position vault coupled
//! to a liquid-staking pool, a validator-scoring registry, and a price
//! oracle with staleness and fallback handling.
//!
//! Every component is a plain state machine: its persistent store is modeled
//! as owned fields (integer-keyed maps for per-user and per-validator data),
//! the host environment's inputs (caller, block time, attached value, feed
//! responses, token total supply) are explicit parameters, and every
//! operation either returns the event it would emit or the error on which
//! the whole call reverts, leaving the state untouched.
//!
//! All monetary quantities are fixed-point unsigned integers: base-asset
//! amounts carry nine implicit decimals, ratios are basis points over
//! 10,000. Arithmetic faults are fatal: every step is checked, an overflow
//! or underflow reverts the call with its own error kind, and the only
//! saturations are the deliberately specified ones (the stake-to-mint
//! multiplier clamp, the validator score, the merged relay intents). Each
//! contract states the exact outcome, fault branches included.

pub mod arith;
pub mod cusd;
pub mod deploy;
pub mod laws;
pub mod ledger;
pub mod oracle;
pub mod pool;
pub mod registry;
pub mod relay;
pub mod vault;
pub mod yscspr;
