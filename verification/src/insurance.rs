//! Default-protection insurance pool.
//!
//! Liquidity providers opt into the pool by paying premiums. When an invoice
//! they funded defaults, the pool admin (the liquidity contract) files a claim
//! and the pool pays out a flat per-claim coverage cap, bounded by the pool's
//! balance. Coverage changes and admin transfers are timelocked.
//!
//! Premiums are pool accounting: no tokens move in this model.

use std::collections::HashMap;
use vstd::prelude::*;

use crate::host::{get_or, Address, Invocation, Rejection};
use crate::arith::{clamp_i128, sat_add_i128};

verus! {

broadcast use vstd::std_specs::hash::group_hash_axioms;

/// Delay, in seconds, between proposing a timelocked admin action and the
/// earliest time at which it may be executed (three days).
pub const TIMELOCK_DELAY_SECONDS: u64 = 3 * 24 * 60 * 60;

/// Errors surfaced by the insurance pool.
#[derive(Copy, Clone, Debug, PartialEq, Eq, PartialOrd, Ord, Structural)]
pub enum InsuranceError {
    /// Contract has not been initialised with an admin.
    NotInitialized,
    /// A claim has already been processed for this invoice.
    AlreadyClaimed,
    /// Premium / coverage amount must be positive.
    InvalidAmount,
    /// Pool has no balance available to pay a claim.
    PoolEmpty,
    /// Contract is already initialised.
    AlreadyInitialized,
    /// No pending proposal exists for the requested admin action.
    NoPendingProposal,
    /// The proposal's timelock has not yet expired.
    TimelockNotExpired,
}

impl InsuranceError {
    /// The error's stable numeric code.
    pub open spec fn spec_code(self) -> u32 {
        match self {
            InsuranceError::NotInitialized => 1,
            InsuranceError::AlreadyClaimed => 2,
            InsuranceError::InvalidAmount => 3,
            InsuranceError::PoolEmpty => 4,
            InsuranceError::AlreadyInitialized => 5,
            InsuranceError::NoPendingProposal => 6,
            InsuranceError::TimelockNotExpired => 7,
        }
    }

    /// The error's stable numeric code.
    pub fn code(&self) -> (c: u32)
        ensures
            c == self.spec_code(),
    {
        match self {
            InsuranceError::NotInitialized => 1,
            InsuranceError::AlreadyClaimed => 2,
            InsuranceError::InvalidAmount => 3,
            InsuranceError::PoolEmpty => 4,
            InsuranceError::AlreadyInitialized => 5,
            InsuranceError::NoPendingProposal => 6,
            InsuranceError::TimelockNotExpired => 7,
        }
    }
}

/// Events published by the pool.
#[derive(Clone, Copy, Debug, PartialEq, Eq, Structural)]
pub enum PoolEvent {
    /// Topic `cov_prop`: a coverage change was queued.
    CoverageProposed { new_coverage: i128, eta: u64 },
    /// Topic `cov_exec`: the queued coverage change was applied.
    CoverageExecuted { new_coverage: i128 },
    /// Topic `cov_cncl`: the queued coverage change was cancelled.
    CoverageCancelled,
    /// Topic `cov_gov`: governance replaced the coverage cap directly.
    CoverageSetByGovernance { new_coverage: i128 },
    /// Topic `prem_rate`: governance set the premium rate.
    PremiumRateSet { rate: i128 },
    /// Topics `adm_prop, new_admin`: an admin transfer was queued.
    AdminProposed { new_admin: Address, eta: u64 },
    /// Topic `adm_exec`: the queued admin transfer was applied.
    AdminExecuted { new_admin: Address },
    /// Topic `adm_cncl`: the queued admin transfer was cancelled.
    AdminCancelled,
    /// Topics `enrolled, lp`.
    Enrolled { lp: Address },
    /// Topics `premium, lp`: a premium was paid.
    Premium { lp: Address, amount: i128 },
    /// Topics `claimed, invoice_id`: a claim was paid out.
    Claimed { invoice_id: u64, payout: i128 },
}

/// The pool's storage and event log.
pub struct InsurancePool {
    /// Address authorised to file claims and administer the pool.
    pub admin: Option<Address>,
    /// Total pool balance (premiums minus payouts).
    pub balance: Option<i128>,
    /// Flat per-claim coverage cap.
    pub coverage: Option<i128>,
    /// Enrollment flag per LP, keyed by address.
    pub enrolled: HashMap<u64, bool>,
    /// Cumulative premium paid per LP, keyed by address.
    pub premiums: HashMap<u64, i128>,
    /// Whether a claim has been processed for an invoice id.
    pub claimed: HashMap<u64, bool>,
    /// Proposed coverage cap awaiting its timelock.
    pub pending_coverage: Option<i128>,
    /// Time at which the pending coverage change becomes executable.
    pub coverage_eta: Option<u64>,
    /// Proposed admin awaiting its timelock.
    pub pending_admin: Option<Address>,
    /// Time at which the pending admin transfer becomes executable.
    pub admin_eta: Option<u64>,
    /// Premium rate set through governance.
    pub premium_rate: Option<i128>,
    /// Events published so far, oldest first.
    pub events: Vec<PoolEvent>,
}

/// The abstract state of an [`InsurancePool`].
#[verifier::ext_equal]
pub struct PoolModel {
    pub admin: Option<Address>,
    pub balance: Option<i128>,
    pub coverage: Option<i128>,
    pub enrolled: Map<u64, bool>,
    pub premiums: Map<u64, i128>,
    pub claimed: Map<u64, bool>,
    pub pending_coverage: Option<i128>,
    pub coverage_eta: Option<u64>,
    pub pending_admin: Option<Address>,
    pub admin_eta: Option<u64>,
    pub premium_rate: Option<i128>,
    pub events: Seq<PoolEvent>,
}

impl View for InsurancePool {
    type V = PoolModel;

    open spec fn view(&self) -> PoolModel {
        PoolModel {
            admin: self.admin,
            balance: self.balance,
            coverage: self.coverage,
            enrolled: self.enrolled@,
            premiums: self.premiums@,
            claimed: self.claimed@,
            pending_coverage: self.pending_coverage,
            coverage_eta: self.coverage_eta,
            pending_admin: self.pending_admin,
            admin_eta: self.admin_eta,
            premium_rate: self.premium_rate,
            events: self.events@,
        }
    }
}

/// The time at which an action proposed at `now` becomes executable.
pub open spec fn eta_after(now: u64) -> u64 {
    if now + TIMELOCK_DELAY_SECONDS > u64::MAX {
        u64::MAX
    } else {
        (now + TIMELOCK_DELAY_SECONDS) as u64
    }
}

/// The payout of a claim against a pool holding `balance` with cap `coverage`.
pub open spec fn payout_for(coverage: i128, balance: i128) -> i128 {
    if coverage < balance {
        coverage
    } else {
        balance
    }
}

impl PoolModel {
    /// The model's invariant: the pool is never overdrawn, every coverage cap,
    /// current or pending, is positive, an initialised pool has both, and an
    /// admin transfer is only ever pending on an initialised pool.
    pub open spec fn wf(self) -> bool {
        &&& (self.balance matches Some(b) ==> b >= 0)
        &&& (self.coverage matches Some(c) ==> c > 0)
        &&& (self.pending_coverage matches Some(c) ==> c > 0)
        &&& (self.admin is Some ==> self.balance is Some && self.coverage is Some)
        &&& (self.pending_admin is Some ==> self.admin is Some)
    }

    pub open spec fn pool_balance(self) -> i128 {
        self.balance.unwrap_or(0)
    }

    pub open spec fn coverage_cap(self) -> i128 {
        self.coverage.unwrap_or(0)
    }

    pub open spec fn premiums_of(self, lp: Address) -> i128 {
        get_or(self.premiums, lp.key(), 0)
    }

    pub open spec fn is_enrolled(self, lp: Address) -> bool {
        get_or(self.enrolled, lp.key(), false)
    }

    pub open spec fn is_claimed(self, invoice_id: u64) -> bool {
        get_or(self.claimed, invoice_id, false)
    }

    /// The admin, when the pool is initialised and the admin signed the call.
    pub open spec fn admin_check(self, inv: Invocation) -> Result<Address, Rejection<InsuranceError>> {
        match self.admin {
            None => Err(Rejection::Contract(InsuranceError::NotInitialized)),
            Some(a) => if inv.authorizes(a) {
                Ok(a)
            } else {
                Err(Rejection::NotAuthorized(a))
            },
        }
    }

    pub open spec fn initialize(self, inv: Invocation, admin: Address, coverage: i128) -> (
        PoolModel,
        Result<(), Rejection<InsuranceError>>,
    ) {
        if self.admin is Some {
            (self, Err(Rejection::Contract(InsuranceError::AlreadyInitialized)))
        } else if coverage <= 0 {
            (self, Err(Rejection::Contract(InsuranceError::InvalidAmount)))
        } else if !inv.authorizes(admin) {
            (self, Err(Rejection::NotAuthorized(admin)))
        } else {
            (
                PoolModel { admin: Some(admin), balance: Some(0), coverage: Some(coverage), ..self },
                Ok(()),
            )
        }
    }

    pub open spec fn propose_coverage_change(self, inv: Invocation, new_coverage: i128) -> (
        PoolModel,
        Result<u64, Rejection<InsuranceError>>,
    ) {
        match self.admin_check(inv) {
            Err(e) => (self, Err(e)),
            Ok(_) => if new_coverage <= 0 {
                (self, Err(Rejection::Contract(InsuranceError::InvalidAmount)))
            } else {
                let eta = eta_after(inv.timestamp);
                (
                    PoolModel {
                        pending_coverage: Some(new_coverage),
                        coverage_eta: Some(eta),
                        events: self.events.push(PoolEvent::CoverageProposed { new_coverage, eta }),
                        ..self
                    },
                    Ok(eta),
                )
            },
        }
    }

    pub open spec fn execute_coverage_change(self, inv: Invocation) -> (
        PoolModel,
        Result<(), InsuranceError>,
    ) {
        match (self.pending_coverage, self.coverage_eta) {
            (Some(new_coverage), Some(eta)) => if inv.timestamp < eta {
                (self, Err(InsuranceError::TimelockNotExpired))
            } else {
                (
                    PoolModel {
                        coverage: Some(new_coverage),
                        pending_coverage: None,
                        coverage_eta: None,
                        events: self.events.push(PoolEvent::CoverageExecuted { new_coverage }),
                        ..self
                    },
                    Ok(()),
                )
            },
            _ => (self, Err(InsuranceError::NoPendingProposal)),
        }
    }

    pub open spec fn cancel_coverage_change(self, inv: Invocation) -> (
        PoolModel,
        Result<(), Rejection<InsuranceError>>,
    ) {
        match self.admin_check(inv) {
            Err(e) => (self, Err(e)),
            Ok(_) => if self.pending_coverage is None {
                (self, Err(Rejection::Contract(InsuranceError::NoPendingProposal)))
            } else {
                (
                    PoolModel {
                        pending_coverage: None,
                        coverage_eta: None,
                        events: self.events.push(PoolEvent::CoverageCancelled),
                        ..self
                    },
                    Ok(()),
                )
            },
        }
    }

    pub open spec fn propose_admin_transfer(self, inv: Invocation, new_admin: Address) -> (
        PoolModel,
        Result<u64, Rejection<InsuranceError>>,
    ) {
        match self.admin_check(inv) {
            Err(e) => (self, Err(e)),
            Ok(_) => {
                let eta = eta_after(inv.timestamp);
                (
                    PoolModel {
                        pending_admin: Some(new_admin),
                        admin_eta: Some(eta),
                        events: self.events.push(PoolEvent::AdminProposed { new_admin, eta }),
                        ..self
                    },
                    Ok(eta),
                )
            },
        }
    }

    pub open spec fn execute_admin_transfer(self, inv: Invocation) -> (
        PoolModel,
        Result<(), InsuranceError>,
    ) {
        match (self.pending_admin, self.admin_eta) {
            (Some(new_admin), Some(eta)) => if inv.timestamp < eta {
                (self, Err(InsuranceError::TimelockNotExpired))
            } else {
                (
                    PoolModel {
                        admin: Some(new_admin),
                        pending_admin: None,
                        admin_eta: None,
                        events: self.events.push(PoolEvent::AdminExecuted { new_admin }),
                        ..self
                    },
                    Ok(()),
                )
            },
            _ => (self, Err(InsuranceError::NoPendingProposal)),
        }
    }

    pub open spec fn cancel_admin_transfer(self, inv: Invocation) -> (
        PoolModel,
        Result<(), Rejection<InsuranceError>>,
    ) {
        match self.admin_check(inv) {
            Err(e) => (self, Err(e)),
            Ok(_) => if self.pending_admin is None {
                (self, Err(Rejection::Contract(InsuranceError::NoPendingProposal)))
            } else {
                (
                    PoolModel {
                        pending_admin: None,
                        admin_eta: None,
                        events: self.events.push(PoolEvent::AdminCancelled),
                        ..self
                    },
                    Ok(()),
                )
            },
        }
    }

    pub open spec fn set_coverage_via_governance(self, inv: Invocation, new_coverage: i128) -> (
        PoolModel,
        Result<(), Rejection<InsuranceError>>,
    ) {
        match self.admin_check(inv) {
            Err(e) => (self, Err(e)),
            Ok(_) => if new_coverage <= 0 {
                (self, Err(Rejection::Contract(InsuranceError::InvalidAmount)))
            } else {
                (
                    PoolModel {
                        coverage: Some(new_coverage),
                        events: self.events.push(
                            PoolEvent::CoverageSetByGovernance { new_coverage },
                        ),
                        ..self
                    },
                    Ok(()),
                )
            },
        }
    }

    pub open spec fn set_premium_rate_via_governance(self, inv: Invocation, rate: i128) -> (
        PoolModel,
        Result<(), Rejection<InsuranceError>>,
    ) {
        match self.admin_check(inv) {
            Err(e) => (self, Err(e)),
            Ok(_) => (
                PoolModel {
                    premium_rate: Some(rate),
                    events: self.events.push(PoolEvent::PremiumRateSet { rate }),
                    ..self
                },
                Ok(()),
            ),
        }
    }

    pub open spec fn enroll(self, inv: Invocation, lp: Address) -> (
        PoolModel,
        Result<(), Rejection<InsuranceError>>,
    ) {
        if !inv.authorizes(lp) {
            (self, Err(Rejection::NotAuthorized(lp)))
        } else {
            (
                PoolModel {
                    enrolled: self.enrolled.insert(lp.key(), true),
                    events: self.events.push(PoolEvent::Enrolled { lp }),
                    ..self
                },
                Ok(()),
            )
        }
    }

    pub open spec fn deposit_premium(self, inv: Invocation, lp: Address, amount: i128) -> (
        PoolModel,
        Result<(), Rejection<InsuranceError>>,
    ) {
        if !inv.authorizes(lp) {
            (self, Err(Rejection::NotAuthorized(lp)))
        } else if amount <= 0 {
            (self, Err(Rejection::Contract(InsuranceError::InvalidAmount)))
        } else {
            (
                PoolModel {
                    enrolled: self.enrolled.insert(lp.key(), true),
                    premiums: self.premiums.insert(
                        lp.key(),
                        clamp_i128(self.premiums_of(lp) + amount) as i128,
                    ),
                    balance: Some(clamp_i128(self.pool_balance() + amount) as i128),
                    events: self.events.push(PoolEvent::Premium { lp, amount }),
                    ..self
                },
                Ok(()),
            )
        }
    }

    pub open spec fn claim(self, inv: Invocation, invoice_id: u64) -> (
        PoolModel,
        Result<i128, Rejection<InsuranceError>>,
    ) {
        match self.admin_check(inv) {
            Err(e) => (self, Err(e)),
            Ok(_) => if self.is_claimed(invoice_id) {
                (self, Err(Rejection::Contract(InsuranceError::AlreadyClaimed)))
            } else if self.pool_balance() <= 0 {
                (self, Err(Rejection::Contract(InsuranceError::PoolEmpty)))
            } else {
                let payout = payout_for(self.coverage_cap(), self.pool_balance());
                (
                    PoolModel {
                        balance: Some((self.pool_balance() - payout) as i128),
                        claimed: self.claimed.insert(invoice_id, true),
                        events: self.events.push(PoolEvent::Claimed { invoice_id, payout }),
                        ..self
                    },
                    Ok(payout),
                )
            },
        }
    }
}


/// A claim is paid at most once per invoice: once a claim for `invoice_id`
/// succeeds, any later claim for it is rejected, with `AlreadyClaimed`
/// whenever the admin signs.
pub proof fn law_claim_at_most_once(m: PoolModel, inv1: Invocation, inv2: Invocation, invoice_id: u64)
    requires
        m.wf(),
        m.claim(inv1, invoice_id).1 is Ok,
    ensures
        m.claim(inv1, invoice_id).0.claim(inv2, invoice_id).1 is Err,
        inv2.authorizes(m.admin.unwrap()) ==> m.claim(inv1, invoice_id).0.claim(inv2, invoice_id).1
            == Err::<i128, Rejection<InsuranceError>>(
            Rejection::Contract(InsuranceError::AlreadyClaimed),
        ),
{
}

/// A successful claim pays `min(coverage, balance)`, which is positive and
/// never more than the balance, and the balance drops by exactly the payout.
pub proof fn law_claim_payout(m: PoolModel, inv: Invocation, invoice_id: u64)
    requires
        m.wf(),
        m.claim(inv, invoice_id).1 is Ok,
    ensures
        ({
            let (m2, r) = m.claim(inv, invoice_id);
            let p = r.unwrap();
            &&& p == payout_for(m.coverage_cap(), m.pool_balance())
            &&& 0 < p <= m.pool_balance()
            &&& m2.pool_balance() == m.pool_balance() - p
            &&& m2.pool_balance() >= 0
            &&& m2.is_claimed(invoice_id)
        }),
{
}

/// A premium deposit credits the pool and the LP's premium total with the
/// amount (saturating at the bounds of `i128`) and enrolls the LP.
pub proof fn law_deposit_credits_pool(m: PoolModel, inv: Invocation, lp: Address, amount: i128)
    requires
        m.wf(),
        m.deposit_premium(inv, lp, amount).1 is Ok,
    ensures
        ({
            let m2 = m.deposit_premium(inv, lp, amount).0;
            &&& amount > 0
            &&& m2.pool_balance() == clamp_i128(m.pool_balance() + amount)
            &&& m2.premiums_of(lp) == clamp_i128(m.premiums_of(lp) + amount)
            &&& m2.is_enrolled(lp)
            &&& m.pool_balance() + amount <= i128::MAX ==> m2.pool_balance() == m.pool_balance()
                + amount
        }),
{
}

/// A proposed coverage change takes effect only through its timelock: an
/// execution before the eta is rejected and leaves the cap unchanged, one at
/// or after the eta installs the proposed cap. The eta is the proposal time
/// plus the delay (saturating).
pub proof fn law_coverage_timelock(
    m: PoolModel,
    inv_p: Invocation,
    new_coverage: i128,
    inv_e: Invocation,
)
    requires
        m.wf(),
        m.propose_coverage_change(inv_p, new_coverage).1 is Ok,
    ensures
        ({
            let (m2, r) = m.propose_coverage_change(inv_p, new_coverage);
            let eta = r.unwrap();
            let (m3, r3) = m2.execute_coverage_change(inv_e);
            &&& eta == eta_after(inv_p.timestamp)
            &&& inv_p.timestamp + TIMELOCK_DELAY_SECONDS <= u64::MAX ==> eta == inv_p.timestamp
                + TIMELOCK_DELAY_SECONDS
            &&& m2.coverage == m.coverage
            &&& inv_e.timestamp < eta ==> r3 == Err::<(), InsuranceError>(
                InsuranceError::TimelockNotExpired,
            ) && m3.coverage == m.coverage
            &&& inv_e.timestamp >= eta ==> r3 is Ok && m3.coverage == Some(new_coverage)
                && m3.pending_coverage is None
        }),
{
}

/// A cancelled coverage change can no longer be executed.
pub proof fn law_cancelled_coverage_change(
    m: PoolModel,
    inv_p: Invocation,
    new_coverage: i128,
    inv_c: Invocation,
    inv_e: Invocation,
)
    requires
        m.wf(),
        m.propose_coverage_change(inv_p, new_coverage).1 is Ok,
        m.propose_coverage_change(inv_p, new_coverage).0.cancel_coverage_change(inv_c).1 is Ok,
    ensures
        m.propose_coverage_change(inv_p, new_coverage).0.cancel_coverage_change(
            inv_c,
        ).0.execute_coverage_change(inv_e).1 == Err::<(), InsuranceError>(
            InsuranceError::NoPendingProposal,
        ),
{
}

/// A proposed admin transfer takes effect only through its timelock: an
/// execution before the eta is rejected and leaves the admin unchanged, one
/// at or after the eta installs the proposed admin.
pub proof fn law_admin_transfer_timelock(
    m: PoolModel,
    inv_p: Invocation,
    new_admin: Address,
    inv_e: Invocation,
)
    requires
        m.wf(),
        m.propose_admin_transfer(inv_p, new_admin).1 is Ok,
    ensures
        ({
            let (m2, r) = m.propose_admin_transfer(inv_p, new_admin);
            let eta = r.unwrap();
            let (m3, r3) = m2.execute_admin_transfer(inv_e);
            &&& eta == eta_after(inv_p.timestamp)
            &&& m2.admin == m.admin
            &&& inv_e.timestamp < eta ==> r3 == Err::<(), InsuranceError>(
                InsuranceError::TimelockNotExpired,
            ) && m3.admin == m.admin
            &&& inv_e.timestamp >= eta ==> r3 is Ok && m3.admin == Some(new_admin)
                && m3.pending_admin is None
        }),
{
}

/// A cancelled admin transfer can no longer be executed.
pub proof fn law_cancelled_admin_transfer(
    m: PoolModel,
    inv_p: Invocation,
    new_admin: Address,
    inv_c: Invocation,
    inv_e: Invocation,
)
    requires
        m.wf(),
        m.propose_admin_transfer(inv_p, new_admin).1 is Ok,
        m.propose_admin_transfer(inv_p, new_admin).0.cancel_admin_transfer(inv_c).1 is Ok,
    ensures
        m.propose_admin_transfer(inv_p, new_admin).0.cancel_admin_transfer(
            inv_c,
        ).0.execute_admin_transfer(inv_e).1 == Err::<(), InsuranceError>(
            InsuranceError::NoPendingProposal,
        ),
{
}

/// A new proposal replaces any pending proposal of the same kind.
pub proof fn law_proposal_overwrites(
    m: PoolModel,
    inv1: Invocation,
    c1: i128,
    inv2: Invocation,
    c2: i128,
)
    requires
        m.wf(),
        m.propose_coverage_change(inv1, c1).1 is Ok,
        m.propose_coverage_change(inv1, c1).0.propose_coverage_change(inv2, c2).1 is Ok,
    ensures
        ({
            let m3 = m.propose_coverage_change(inv1, c1).0.propose_coverage_change(inv2, c2).0;
            m3.pending_coverage == Some(c2) && m3.coverage_eta == Some(eta_after(inv2.timestamp))
        }),
{
}

/// Only the admin can file claims and administer the pool: without the
/// admin's signature every admin operation is rejected and the pool is left
/// unchanged.
pub proof fn law_admin_operations_need_admin(
    m: PoolModel,
    inv: Invocation,
    amount: i128,
    who: Address,
    invoice_id: u64,
)
    requires
        m.admin matches Some(a) && !inv.authorizes(a),
    ensures
        m.claim(inv, invoice_id).0 == m && m.claim(inv, invoice_id).1 is Err,
        m.propose_coverage_change(inv, amount).0 == m,
        m.propose_coverage_change(inv, amount).1 is Err,
        m.cancel_coverage_change(inv).0 == m && m.cancel_coverage_change(inv).1 is Err,
        m.propose_admin_transfer(inv, who).0 == m && m.propose_admin_transfer(inv, who).1 is Err,
        m.cancel_admin_transfer(inv).0 == m && m.cancel_admin_transfer(inv).1 is Err,
        m.set_coverage_via_governance(inv, amount).0 == m,
        m.set_premium_rate_via_governance(inv, amount).0 == m,
{
}

/// Executing a timelocked change is open to anyone: the outcome depends on
/// the time of the call, not on who signed it.
pub proof fn law_execution_is_permissionless(m: PoolModel, inv1: Invocation, inv2: Invocation)
    requires
        inv1.timestamp == inv2.timestamp,
    ensures
        m.execute_coverage_change(inv1) == m.execute_coverage_change(inv2),
        m.execute_admin_transfer(inv1) == m.execute_admin_transfer(inv2),
{
}

/// Every operation keeps the pool well formed: never overdrawn, and every
/// coverage cap positive.
pub proof fn law_operations_preserve_wf(
    m: PoolModel,
    inv: Invocation,
    who: Address,
    amount: i128,
    invoice_id: u64,
)
    requires
        m.wf(),
    ensures
        m.initialize(inv, who, amount).0.wf(),
        m.propose_coverage_change(inv, amount).0.wf(),
        m.execute_coverage_change(inv).0.wf(),
        m.cancel_coverage_change(inv).0.wf(),
        m.propose_admin_transfer(inv, who).0.wf(),
        m.execute_admin_transfer(inv).0.wf(),
        m.cancel_admin_transfer(inv).0.wf(),
        m.set_coverage_via_governance(inv, amount).0.wf(),
        m.set_premium_rate_via_governance(inv, amount).0.wf(),
        m.enroll(inv, who).0.wf(),
        m.deposit_premium(inv, who, amount).0.wf(),
        m.claim(inv, invoice_id).0.wf(),
{
}

/// Initialisation outcomes: refused with `AlreadyInitialized` on an
/// initialised pool, with `InvalidAmount` for a non-positive cap, and when
/// the admin did not sign; otherwise the pool gets its admin and cap and an
/// empty balance.
pub proof fn law_initialize_outcomes(m: PoolModel, inv: Invocation, admin: Address, coverage: i128)
    ensures
        ({
            let (m2, r) = m.initialize(inv, admin, coverage);
            &&& m.admin is Some ==> m2 == m && r == Err::<(), Rejection<InsuranceError>>(
                Rejection::Contract(InsuranceError::AlreadyInitialized),
            )
            &&& m.admin is None && coverage <= 0 ==> m2 == m && r == Err::<
                (),
                Rejection<InsuranceError>,
            >(Rejection::Contract(InsuranceError::InvalidAmount))
            &&& m.admin is None && coverage > 0 && !inv.authorizes(admin) ==> m2 == m && r == Err::<
                (),
                Rejection<InsuranceError>,
            >(Rejection::NotAuthorized(admin))
            &&& m.admin is None && coverage > 0 && inv.authorizes(admin) ==> {
                &&& r is Ok
                &&& m2.admin == Some(admin)
                &&& m2.coverage_cap() == coverage
                &&& m2.balance == Some(0i128)
                &&& m2.enrolled == m.enrolled && m2.premiums == m.premiums
                &&& m2.claimed == m.claimed
            }
        }),
{
}

/// Enrolling is signed by the LP itself; once it succeeds the LP is
/// enrolled, whatever its state before, and no other LP's flag, premium or
/// the pool balance changes.
pub proof fn law_enroll_sets_flag(m: PoolModel, inv: Invocation, lp: Address, other: Address)
    requires
        other != lp,
    ensures
        ({
            let (m2, r) = m.enroll(inv, lp);
            &&& (r is Ok) == inv.authorizes(lp)
            &&& !inv.authorizes(lp) ==> m2 == m && r == Err::<(), Rejection<InsuranceError>>(
                Rejection::NotAuthorized(lp),
            )
            &&& r is Ok ==> m2.is_enrolled(lp)
            &&& m2.is_enrolled(other) == m.is_enrolled(other)
            &&& m2.premiums == m.premiums
            &&& m2.balance == m.balance
        }),
{
}

/// Enrolling twice is the same as enrolling once: the LP stays enrolled.
pub proof fn law_enroll_twice(m: PoolModel, inv: Invocation, lp: Address)
    requires
        inv.authorizes(lp),
    ensures
        m.enroll(inv, lp).0.enroll(inv, lp).0.is_enrolled(lp),
        m.enroll(inv, lp).0.enroll(inv, lp).0.enrolled == m.enroll(inv, lp).0.enrolled,
{
}

/// Premium deposits: refused without the LP's signature, and with
/// `InvalidAmount` for a non-positive amount; an accepted deposit changes no
/// other LP's premium total or enrollment.
pub proof fn law_deposit_outcomes(
    m: PoolModel,
    inv: Invocation,
    lp: Address,
    amount: i128,
    other: Address,
)
    requires
        other != lp,
    ensures
        ({
            let (m2, r) = m.deposit_premium(inv, lp, amount);
            &&& !inv.authorizes(lp) ==> m2 == m && r == Err::<(), Rejection<InsuranceError>>(
                Rejection::NotAuthorized(lp),
            )
            &&& inv.authorizes(lp) && amount <= 0 ==> m2 == m && r == Err::<
                (),
                Rejection<InsuranceError>,
            >(Rejection::Contract(InsuranceError::InvalidAmount))
            &&& inv.authorizes(lp) && amount > 0 ==> r is Ok
            &&& m2.premiums_of(other) == m.premiums_of(other)
            &&& m2.is_enrolled(other) == m.is_enrolled(other)
        }),
{
}

/// A claim signed by the admin, for an invoice not yet claimed, against a
/// pool with a positive balance, succeeds and pays the smaller of the
/// coverage cap and the balance; no other invoice's claim status changes.
pub proof fn law_claim_succeeds_when_payable(
    m: PoolModel,
    inv: Invocation,
    invoice_id: u64,
    other_invoice: u64,
)
    requires
        m.wf(),
        m.admin matches Some(a) && inv.authorizes(a),
        !m.is_claimed(invoice_id),
        m.pool_balance() > 0,
        other_invoice != invoice_id,
    ensures
        ({
            let (m2, r) = m.claim(inv, invoice_id);
            let p = r.unwrap();
            &&& r is Ok
            &&& p <= m.coverage_cap() && p <= m.pool_balance()
            &&& p == m.coverage_cap() || p == m.pool_balance()
            &&& m2.pool_balance() == m.pool_balance() - p
            &&& m2.is_claimed(other_invoice) == m.is_claimed(other_invoice)
            &&& m2.coverage == m.coverage && m2.admin == m.admin
        }),
{
}

/// A signed claim against an empty pool is refused with `PoolEmpty`.
pub proof fn law_claim_empty_pool(m: PoolModel, inv: Invocation, invoice_id: u64)
    requires
        m.admin matches Some(a) && inv.authorizes(a),
        !m.is_claimed(invoice_id),
        m.pool_balance() <= 0,
    ensures
        m.claim(inv, invoice_id) == (m, Err::<i128, Rejection<InsuranceError>>(
            Rejection::Contract(InsuranceError::PoolEmpty),
        )),
{
}

/// Governance changes signed by the admin: a positive cap replaces the
/// coverage at once and a non-positive one is refused with `InvalidAmount`;
/// any premium rate is recorded as given.
pub proof fn law_governance_setters(m: PoolModel, inv: Invocation, value: i128)
    requires
        m.admin matches Some(a) && inv.authorizes(a),
    ensures
        value > 0 ==> m.set_coverage_via_governance(inv, value).1 is Ok
            && m.set_coverage_via_governance(inv, value).0.coverage_cap() == value,
        value <= 0 ==> m.set_coverage_via_governance(inv, value) == (m, Err::<
            (),
            Rejection<InsuranceError>,
        >(Rejection::Contract(InsuranceError::InvalidAmount))),
        m.set_premium_rate_via_governance(inv, value).1 is Ok,
        m.set_premium_rate_via_governance(inv, value).0.premium_rate == Some(value),
        m.set_premium_rate_via_governance(inv, value).0.coverage == m.coverage,
{
}

/// A coverage change signed by the admin is queued when the proposed cap is
/// positive, becoming executable after the delay, and refused with
/// `InvalidAmount` otherwise; an admin transfer signed by the admin is always
/// queued. Neither changes the current cap or admin.
pub proof fn law_proposals_queue(m: PoolModel, inv: Invocation, new_coverage: i128, new_admin: Address)
    requires
        m.admin matches Some(a) && inv.authorizes(a),
    ensures
        new_coverage > 0 ==> m.propose_coverage_change(inv, new_coverage).1 == Ok::<
            u64,
            Rejection<InsuranceError>,
        >(eta_after(inv.timestamp)),
        new_coverage > 0 ==> m.propose_coverage_change(inv, new_coverage).0.pending_coverage == Some(
            new_coverage,
        ),
        new_coverage <= 0 ==> m.propose_coverage_change(inv, new_coverage) == (m, Err::<
            u64,
            Rejection<InsuranceError>,
        >(Rejection::Contract(InsuranceError::InvalidAmount))),
        m.propose_coverage_change(inv, new_coverage).0.coverage == m.coverage,
        m.propose_admin_transfer(inv, new_admin).1 == Ok::<u64, Rejection<InsuranceError>>(
            eta_after(inv.timestamp),
        ),
        m.propose_admin_transfer(inv, new_admin).0.pending_admin == Some(new_admin),
        m.propose_admin_transfer(inv, new_admin).0.admin == m.admin,
{
}

/// The timelock delay is three days, and an action proposed at `now`
/// becomes executable no earlier than `now` (exactly `now` plus the delay
/// unless that would overflow).
pub proof fn law_eta_is_three_days_later(now: u64)
    ensures
        TIMELOCK_DELAY_SECONDS == 259_200,
        eta_after(now) >= now,
        now <= u64::MAX - 259_200 ==> eta_after(now) == now + 259_200,
        now > u64::MAX - 259_200 ==> eta_after(now) == u64::MAX,
{
}

/// Without a pending proposal, executing is refused with
/// `NoPendingProposal` and changes nothing.
pub proof fn law_execute_without_proposal(m: PoolModel, inv: Invocation)
    ensures
        m.pending_coverage is None ==> m.execute_coverage_change(inv) == (m, Err::<
            (),
            InsuranceError,
        >(InsuranceError::NoPendingProposal)),
        m.pending_admin is None ==> m.execute_admin_transfer(inv) == (m, Err::<(), InsuranceError>(
            InsuranceError::NoPendingProposal,
        )),
{
}

/// Before initialisation the admin operations are refused with
/// `NotInitialized` and change nothing.
pub proof fn law_admin_operations_need_initialization(
    m: PoolModel,
    inv: Invocation,
    amount: i128,
    who: Address,
    invoice_id: u64,
)
    requires
        m.admin is None,
    ensures
        m.claim(inv, invoice_id) == (m, Err::<i128, Rejection<InsuranceError>>(
            Rejection::Contract(InsuranceError::NotInitialized),
        )),
        m.propose_coverage_change(inv, amount) == (m, Err::<u64, Rejection<InsuranceError>>(
            Rejection::Contract(InsuranceError::NotInitialized),
        )),
        m.propose_admin_transfer(inv, who) == (m, Err::<u64, Rejection<InsuranceError>>(
            Rejection::Contract(InsuranceError::NotInitialized),
        )),
        m.set_coverage_via_governance(inv, amount) == (m, Err::<(), Rejection<InsuranceError>>(
            Rejection::Contract(InsuranceError::NotInitialized),
        )),
        m.set_premium_rate_via_governance(inv, amount) == (m, Err::<(), Rejection<InsuranceError>>(
            Rejection::Contract(InsuranceError::NotInitialized),
        )),
{
}

impl InsurancePool {
    /// A pool with empty storage, before `initialize`.
    pub fn new() -> (p: InsurancePool)
        ensures
            p@ == (PoolModel {
                admin: None,
                balance: None,
                coverage: None,
                enrolled: Map::empty(),
                premiums: Map::empty(),
                claimed: Map::empty(),
                pending_coverage: None,
                coverage_eta: None,
                pending_admin: None,
                admin_eta: None,
                premium_rate: None,
                events: Seq::empty(),
            }),
            p@.wf(),
    {
        InsurancePool {
            admin: None,
            balance: None,
            coverage: None,
            enrolled: HashMap::new(),
            premiums: HashMap::new(),
            claimed: HashMap::new(),
            pending_coverage: None,
            coverage_eta: None,
            pending_admin: None,
            admin_eta: None,
            premium_rate: None,
            events: Vec::new(),
        }
    }

    /// Initialise the pool with its admin (authorised to file claims) and a
    /// positive flat per-claim coverage cap. One-shot.
    pub fn initialize(&mut self, inv: &Invocation, admin: Address, coverage: i128) -> (r: Result<
        (),
        Rejection<InsuranceError>,
    >)
        requires
            old(self)@.wf(),
        ensures
            (final(self)@, r) == old(self)@.initialize(*inv, admin, coverage),
            final(self)@.wf(),
    {
        if self.admin.is_some() {
            return Err(Rejection::Contract(InsuranceError::AlreadyInitialized));
        }
        if coverage <= 0 {
            return Err(Rejection::Contract(InsuranceError::InvalidAmount));
        }
        if !inv.require_auth(admin) {
            return Err(Rejection::NotAuthorized(admin));
        }
        self.admin = Some(admin);
        self.balance = Some(0);
        self.coverage = Some(coverage);
        Ok(())
    }

    /// Total premium an LP has contributed over the pool's lifetime.
    pub fn get_premiums_paid(&self, lp: Address) -> (r: i128)
        ensures
            r == self@.premiums_of(lp),
    {
        match self.premiums.get(&lp.0) {
            Some(v) => *v,
            None => 0,
        }
    }

    /// The configured flat per-claim coverage cap (0 before initialisation).
    pub fn get_coverage(&self) -> (r: i128)
        ensures
            r == self@.coverage_cap(),
    {
        match self.coverage {
            Some(c) => c,
            None => 0,
        }
    }

    /// Whether a claim has already been processed for `invoice_id`.
    pub fn is_claimed(&self, invoice_id: u64) -> (r: bool)
        ensures
            r == self@.is_claimed(invoice_id),
    {
        match self.claimed.get(&invoice_id) {
            Some(v) => *v,
            None => false,
        }
    }

    /// The configured admin, provided it signed this call.
    fn require_admin(&self, inv: &Invocation) -> (r: Result<Address, Rejection<InsuranceError>>)
        ensures
            r == self@.admin_check(*inv),
    {
        match self.admin {
            Some(admin) => {
                if inv.require_auth(admin) {
                    Ok(admin)
                } else {
                    Err(Rejection::NotAuthorized(admin))
                }
            },
            None => Err(Rejection::Contract(InsuranceError::NotInitialized)),
        }
    }

    /// Queue a new coverage cap behind the timelock; returns the time at
    /// which it becomes executable. Overwrites any pending coverage proposal.
    pub fn propose_coverage_change(&mut self, inv: &Invocation, new_coverage: i128) -> (r: Result<
        u64,
        Rejection<InsuranceError>,
    >)
        requires
            old(self)@.wf(),
        ensures
            (final(self)@, r) == old(self)@.propose_coverage_change(*inv, new_coverage),
            final(self)@.wf(),
    {
        if let Err(e) = self.require_admin(inv) {
            return Err(e);
        }
        if new_coverage <= 0 {
            return Err(Rejection::Contract(InsuranceError::InvalidAmount));
        }
        let eta = inv.timestamp.saturating_add(TIMELOCK_DELAY_SECONDS);
        self.pending_coverage = Some(new_coverage);
        self.coverage_eta = Some(eta);
        self.events.push(PoolEvent::CoverageProposed { new_coverage, eta });
        Ok(eta)
    }

    /// Apply the pending coverage change once its timelock has expired.
    /// Anyone may call this.
    pub fn execute_coverage_change(&mut self, inv: &Invocation) -> (r: Result<(), InsuranceError>)
        requires
            old(self)@.wf(),
        ensures
            (final(self)@, r) == old(self)@.execute_coverage_change(*inv),
            final(self)@.wf(),
    {
        let new_coverage = match self.pending_coverage {
            Some(c) => c,
            None => return Err(InsuranceError::NoPendingProposal),
        };
        let eta = match self.coverage_eta {
            Some(t) => t,
            None => return Err(InsuranceError::NoPendingProposal),
        };
        if inv.timestamp < eta {
            return Err(InsuranceError::TimelockNotExpired);
        }
        self.coverage = Some(new_coverage);
        self.pending_coverage = None;
        self.coverage_eta = None;
        self.events.push(PoolEvent::CoverageExecuted { new_coverage });
        Ok(())
    }

    /// Cancel the pending coverage change. Requires the admin.
    pub fn cancel_coverage_change(&mut self, inv: &Invocation) -> (r: Result<
        (),
        Rejection<InsuranceError>,
    >)
        requires
            old(self)@.wf(),
        ensures
            (final(self)@, r) == old(self)@.cancel_coverage_change(*inv),
            final(self)@.wf(),
    {
        if let Err(e) = self.require_admin(inv) {
            return Err(e);
        }
        if self.pending_coverage.is_none() {
            return Err(Rejection::Contract(InsuranceError::NoPendingProposal));
        }
        self.pending_coverage = None;
        self.coverage_eta = None;
        self.events.push(PoolEvent::CoverageCancelled);
        Ok(())
    }

    /// Queue an admin transfer behind the timelock; returns the time at which
    /// it becomes executable. Overwrites any pending admin proposal.
    pub fn propose_admin_transfer(&mut self, inv: &Invocation, new_admin: Address) -> (r: Result<
        u64,
        Rejection<InsuranceError>,
    >)
        requires
            old(self)@.wf(),
        ensures
            (final(self)@, r) == old(self)@.propose_admin_transfer(*inv, new_admin),
            final(self)@.wf(),
    {
        if let Err(e) = self.require_admin(inv) {
            return Err(e);
        }
        let eta = inv.timestamp.saturating_add(TIMELOCK_DELAY_SECONDS);
        self.pending_admin = Some(new_admin);
        self.admin_eta = Some(eta);
        self.events.push(PoolEvent::AdminProposed { new_admin, eta });
        Ok(eta)
    }

    /// Apply the pending admin transfer once its timelock has expired.
    /// Anyone may call this.
    pub fn execute_admin_transfer(&mut self, inv: &Invocation) -> (r: Result<(), InsuranceError>)
        requires
            old(self)@.wf(),
        ensures
            (final(self)@, r) == old(self)@.execute_admin_transfer(*inv),
            final(self)@.wf(),
    {
        let new_admin = match self.pending_admin {
            Some(a) => a,
            None => return Err(InsuranceError::NoPendingProposal),
        };
        let eta = match self.admin_eta {
            Some(t) => t,
            None => return Err(InsuranceError::NoPendingProposal),
        };
        if inv.timestamp < eta {
            return Err(InsuranceError::TimelockNotExpired);
        }
        self.admin = Some(new_admin);
        self.pending_admin = None;
        self.admin_eta = None;
        self.events.push(PoolEvent::AdminExecuted { new_admin });
        Ok(())
    }

    /// Cancel the pending admin transfer. Requires the admin.
    pub fn cancel_admin_transfer(&mut self, inv: &Invocation) -> (r: Result<
        (),
        Rejection<InsuranceError>,
    >)
        requires
            old(self)@.wf(),
        ensures
            (final(self)@, r) == old(self)@.cancel_admin_transfer(*inv),
            final(self)@.wf(),
    {
        if let Err(e) = self.require_admin(inv) {
            return Err(e);
        }
        if self.pending_admin.is_none() {
            return Err(Rejection::Contract(InsuranceError::NoPendingProposal));
        }
        self.pending_admin = None;
        self.admin_eta = None;
        self.events.push(PoolEvent::AdminCancelled);
        Ok(())
    }

    /// The pending coverage proposal `(new_cap, eta)`, if any.
    pub fn get_pending_coverage(&self) -> (r: Option<(i128, u64)>)
        ensures
            r == (match (self@.pending_coverage, self@.coverage_eta) {
                (Some(c), Some(t)) => Some((c, t)),
                _ => None,
            }),
    {
        match (self.pending_coverage, self.coverage_eta) {
            (Some(c), Some(t)) => Some((c, t)),
            _ => None,
        }
    }

    /// The pending admin transfer `(new_admin, eta)`, if any.
    pub fn get_pending_admin(&self) -> (r: Option<(Address, u64)>)
        ensures
            r == (match (self@.pending_admin, self@.admin_eta) {
                (Some(a), Some(t)) => Some((a, t)),
                _ => None,
            }),
    {
        match (self.pending_admin, self.admin_eta) {
            (Some(a), Some(t)) => Some((a, t)),
            _ => None,
        }
    }

    /// Governance replaces the coverage cap directly. Requires the admin and
    /// a positive cap.
    pub fn set_coverage_via_governance(&mut self, inv: &Invocation, new_coverage: i128) -> (r: Result<
        (),
        Rejection<InsuranceError>,
    >)
        requires
            old(self)@.wf(),
        ensures
            (final(self)@, r) == old(self)@.set_coverage_via_governance(*inv, new_coverage),
            final(self)@.wf(),
    {
        if let Err(e) = self.require_admin(inv) {
            return Err(e);
        }
        if new_coverage <= 0 {
            return Err(Rejection::Contract(InsuranceError::InvalidAmount));
        }
        self.coverage = Some(new_coverage);
        self.events.push(PoolEvent::CoverageSetByGovernance { new_coverage });
        Ok(())
    }

    /// Governance sets the premium rate. Requires the admin.
    pub fn set_premium_rate_via_governance(&mut self, inv: &Invocation, rate: i128) -> (r: Result<
        (),
        Rejection<InsuranceError>,
    >)
        requires
            old(self)@.wf(),
        ensures
            (final(self)@, r) == old(self)@.set_premium_rate_via_governance(*inv, rate),
            final(self)@.wf(),
    {
        if let Err(e) = self.require_admin(inv) {
            return Err(e);
        }
        self.premium_rate = Some(rate);
        self.events.push(PoolEvent::PremiumRateSet { rate });
        Ok(())
    }

    /// Opt `lp` into the program. Requires `lp`'s signature.
    pub fn enroll(&mut self, inv: &Invocation, lp: Address) -> (r: Result<
        (),
        Rejection<InsuranceError>,
    >)
        requires
            old(self)@.wf(),
        ensures
            (final(self)@, r) == old(self)@.enroll(*inv, lp),
            final(self)@.wf(),
    {
        if !inv.require_auth(lp) {
            return Err(Rejection::NotAuthorized(lp));
        }
        self.enrolled.insert(lp.0, true);
        self.events.push(PoolEvent::Enrolled { lp });
        Ok(())
    }

    /// Whether `lp` is enrolled.
    pub fn is_enrolled(&self, lp: Address) -> (r: bool)
        ensures
            r == self@.is_enrolled(lp),
    {
        match self.enrolled.get(&lp.0) {
            Some(v) => *v,
            None => false,
        }
    }

    /// Record a premium paid by `lp`: the pool balance and the LP's premium
    /// total grow by `amount` (saturating), and the LP is enrolled.
    pub fn deposit_premium(&mut self, inv: &Invocation, lp: Address, amount: i128) -> (r: Result<
        (),
        Rejection<InsuranceError>,
    >)
        requires
            old(self)@.wf(),
        ensures
            (final(self)@, r) == old(self)@.deposit_premium(*inv, lp, amount),
            final(self)@.wf(),
    {
        if !inv.require_auth(lp) {
            return Err(Rejection::NotAuthorized(lp));
        }
        if amount <= 0 {
            return Err(Rejection::Contract(InsuranceError::InvalidAmount));
        }
        self.enrolled.insert(lp.0, true);
        let prev_premium = self.get_premiums_paid(lp);
        self.premiums.insert(lp.0, sat_add_i128(prev_premium, amount));
        let balance = self.get_pool_balance();
        self.balance = Some(sat_add_i128(balance, amount));
        self.events.push(PoolEvent::Premium { lp, amount });
        Ok(())
    }

    /// Compensate for a defaulted invoice: pays the coverage cap, bounded by
    /// the pool balance. Requires the admin; at most once per invoice.
    pub fn claim(&mut self, inv: &Invocation, invoice_id: u64) -> (r: Result<
        i128,
        Rejection<InsuranceError>,
    >)
        requires
            old(self)@.wf(),
        ensures
            (final(self)@, r) == old(self)@.claim(*inv, invoice_id),
            final(self)@.wf(),
    {
        if let Err(e) = self.require_admin(inv) {
            return Err(e);
        }
        if self.is_claimed(invoice_id) {
            return Err(Rejection::Contract(InsuranceError::AlreadyClaimed));
        }
        let balance = self.get_pool_balance();
        if balance <= 0 {
            return Err(Rejection::Contract(InsuranceError::PoolEmpty));
        }
        let coverage = self.get_coverage();
        let payout = if coverage < balance {
            coverage
        } else {
            balance
        };
        self.balance = Some(balance - payout);
        self.claimed.insert(invoice_id, true);
        self.events.push(PoolEvent::Claimed { invoice_id, payout });
        Ok(payout)
    }

    /// Total pool balance (premiums minus payouts).
    pub fn get_pool_balance(&self) -> (r: i128)
        ensures
            r == self@.pool_balance(),
    {
        match self.balance {
            Some(b) => b,
            None => 0,
        }
    }
}

} // verus!
