//! Verified core of the invoice-liquidity contract suite: the insurance pool,
//! the governance-token distribution, the liquidity contract's storage layer
//! and access guards, and the reputation-bonus events.
//!
//! Each contract's storage is modelled as a plain Rust value; the host
//! environment (ledger time, signatures) is passed in as an [`host::Invocation`].

pub mod arith;
pub mod host;
pub mod insurance;
pub mod distribution;
pub mod constants;
pub mod errors;
pub mod invoice;
pub mod storage;
pub mod access;
pub mod reputation_events;


