//! Protocol constants of the liquidity contract.

use vstd::prelude::*;

verus! {

/// Largest discount rate an invoice may carry, in basis points.
pub const MAX_DISCOUNT_RATE: u32 = 5000;

/// Score of a payer with no reputation record.
pub const DEFAULT_PAYER_SCORE: u32 = 50;

/// Score of an LP with no reputation record.
pub const DEFAULT_LP_SCORE: u32 = 50;

/// Capacity of the top-payers heap.
pub const TOP_PAYERS_CAPACITY: u32 = 50;

/// Current storage schema version; bumped whenever the storage layout changes.
pub const CURRENT_STORAGE_VERSION: u32 = 2;

/// Default minimum delay between sensitive admin operations, in ledgers
/// (about ten minutes at five seconds per ledger).
pub const DEFAULT_RATE_LIMIT_LEDGERS: u64 = 120;

/// Rate-limit cooldown for `set_admin` (about one hour).
pub const ADMIN_CHANGE_COOLDOWN_LEDGERS: u64 = 720;

/// Rate-limit cooldown for `upgrade` (about two hours).
pub const UPGRADE_COOLDOWN_LEDGERS: u64 = 1440;

/// Rate-limit cooldown for economic parameters (about thirty minutes).
pub const ECONOMIC_PARAM_COOLDOWN_LEDGERS: u64 = 360;

/// Largest number of decay periods a payer score is decayed through; a score
/// left unattended for longer decays to zero.
pub const MAX_REPUTATION_DECAY_PERIODS: u64 = 1000;

/// Highest reputation score.
pub const MAX_SCORE: u32 = 100;

/// The contract's version string.
pub fn contract_version() -> (v: &'static str)
    ensures
        v@ == "1.0.0"@,
{
    "1.0.0"
}

} // verus!
