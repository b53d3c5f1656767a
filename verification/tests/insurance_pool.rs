use iln_contracts::host::{Address, Invocation, Rejection};
use iln_contracts::insurance::{InsuranceError, InsurancePool, PoolEvent, TIMELOCK_DELAY_SECONDS};

struct Setup {
    pool: InsurancePool,
    admin: Address,
    next_address: u64,
}

impl Setup {
    fn generate(&mut self) -> Address {
        self.next_address += 1;
        Address(self.next_address)
    }
}

const COVERAGE: i128 = 1_000_000_000; // flat per-claim cap (100 units @ 1e7)

fn at(timestamp: u64) -> Invocation {
    Invocation::mocked(timestamp, 0)
}

fn setup() -> Setup {
    let mut pool = InsurancePool::new();
    let admin = Address(1);
    pool.initialize(&at(0), admin, COVERAGE).unwrap();
    Setup { pool, admin, next_address: 1 }
}

#[test]
fn initialize_sets_coverage_and_zero_balance() {
    let s = setup();
    assert_eq!(s.pool.get_pool_balance(), 0);
    assert_eq!(s.pool.get_coverage(), COVERAGE);
}

#[test]
fn initialize_is_single_shot() {
    let mut s = setup();
    let other = s.generate();
    let res = s.pool.initialize(&at(0), other, COVERAGE);
    assert_eq!(res, Err(Rejection::Contract(InsuranceError::AlreadyInitialized)));
}

#[test]
fn enroll_marks_lp_enrolled() {
    let mut s = setup();
    let lp = s.generate();
    assert!(!s.pool.is_enrolled(lp));
    s.pool.enroll(&at(0), lp).unwrap();
    assert!(s.pool.is_enrolled(lp));
}

#[test]
fn deposit_premium_increases_balance_and_auto_enrolls() {
    let mut s = setup();
    let lp = s.generate();

    s.pool.deposit_premium(&at(0), lp, 500).unwrap();
    s.pool.deposit_premium(&at(0), lp, 250).unwrap();

    assert_eq!(s.pool.get_pool_balance(), 750);
    assert_eq!(s.pool.get_premiums_paid(lp), 750);
    assert!(s.pool.is_enrolled(lp)); // auto-enrolled on first premium
}

#[test]
fn deposit_premium_rejects_non_positive_amount() {
    let mut s = setup();
    let lp = s.generate();
    assert!(s.pool.deposit_premium(&at(0), lp, 0).is_err());
    assert!(s.pool.deposit_premium(&at(0), lp, -100).is_err());
}

#[test]
fn claim_pays_coverage_capped_by_balance() {
    let mut s = setup();
    let lp = s.generate();

    // Pool has less than the coverage cap -> payout bounded by balance.
    s.pool.deposit_premium(&at(0), lp, 400).unwrap();
    let payout = s.pool.claim(&at(0), 1).unwrap();
    assert_eq!(payout, 400);
    assert_eq!(s.pool.get_pool_balance(), 0);
    assert!(s.pool.is_claimed(1));
}

#[test]
fn claim_pays_flat_coverage_when_pool_is_large() {
    let mut s = setup();
    let lp = s.generate();

    s.pool.deposit_premium(&at(0), lp, COVERAGE * 3).unwrap();
    let payout = s.pool.claim(&at(0), 7).unwrap();
    assert_eq!(payout, COVERAGE); // capped at flat coverage
    assert_eq!(s.pool.get_pool_balance(), COVERAGE * 2);
}

#[test]
fn claim_is_idempotent_per_invoice() {
    let mut s = setup();
    let lp = s.generate();
    s.pool.deposit_premium(&at(0), lp, COVERAGE * 2).unwrap();

    s.pool.claim(&at(0), 42).unwrap();
    let res = s.pool.claim(&at(0), 42);
    assert_eq!(res, Err(Rejection::Contract(InsuranceError::AlreadyClaimed)));
}

#[test]
fn claim_rejects_when_pool_empty() {
    let mut s = setup();
    let res = s.pool.claim(&at(0), 99);
    assert_eq!(res, Err(Rejection::Contract(InsuranceError::PoolEmpty)));
}

#[test]
fn admin_is_recorded() {
    let mut s = setup();
    let lp = s.generate();
    s.pool.deposit_premium(&at(0), lp, COVERAGE).unwrap();
    let _ = s.pool.claim(&at(0), 100);
    assert!(s.pool.is_claimed(100));
    assert_eq!(s.pool.admin, Some(s.admin));
}

#[test]
fn coverage_change_requires_timelock_expiry() {
    let mut s = setup();
    let new_coverage = COVERAGE * 2;

    let eta = s.pool.propose_coverage_change(&at(0), new_coverage).unwrap();
    assert_eq!(s.pool.get_coverage(), COVERAGE); // unchanged until executed
    assert_eq!(s.pool.get_pending_coverage(), Some((new_coverage, eta)));

    // Too early.
    let res = s.pool.execute_coverage_change(&at(0));
    assert_eq!(res, Err(InsuranceError::TimelockNotExpired));

    s.pool.execute_coverage_change(&at(eta)).unwrap();

    assert_eq!(s.pool.get_coverage(), new_coverage);
    assert_eq!(s.pool.get_pending_coverage(), None);
}

#[test]
fn coverage_change_can_be_cancelled() {
    let mut s = setup();
    s.pool.propose_coverage_change(&at(0), COVERAGE * 2).unwrap();
    assert!(s.pool.get_pending_coverage().is_some());

    s.pool.cancel_coverage_change(&at(0)).unwrap();
    assert_eq!(s.pool.get_pending_coverage(), None);

    let res = s.pool.execute_coverage_change(&at(0));
    assert_eq!(res, Err(InsuranceError::NoPendingProposal));
}

#[test]
fn admin_transfer_requires_timelock_expiry() {
    let mut s = setup();
    let new_admin = s.generate();

    let eta = s.pool.propose_admin_transfer(&at(0), new_admin).unwrap();
    assert_eq!(s.pool.get_pending_admin(), Some((new_admin, eta)));

    let res = s.pool.execute_admin_transfer(&at(0));
    assert_eq!(res, Err(InsuranceError::TimelockNotExpired));

    s.pool.execute_admin_transfer(&at(eta)).unwrap();

    assert_eq!(s.pool.get_pending_admin(), None);

    // The new admin can now propose further changes.
    let _ = s.pool.propose_coverage_change(&at(eta), COVERAGE * 3);
}

#[test]
fn admin_transfer_can_be_cancelled() {
    let mut s = setup();
    let new_admin = s.generate();

    s.pool.propose_admin_transfer(&at(0), new_admin).unwrap();
    s.pool.cancel_admin_transfer(&at(0)).unwrap();
    assert_eq!(s.pool.get_pending_admin(), None);

    let res = s.pool.execute_admin_transfer(&at(0));
    assert_eq!(res, Err(InsuranceError::NoPendingProposal));
}

#[test]
fn governance_can_update_coverage_cap() {
    let mut s = setup();
    assert_eq!(s.pool.get_coverage(), COVERAGE);

    let new_coverage = 2_000_000_000;
    s.pool.set_coverage_via_governance(&at(0), new_coverage).unwrap();
    assert_eq!(s.pool.get_coverage(), new_coverage);
}

#[test]
fn governance_rejects_non_positive_coverage() {
    let mut s = setup();
    let res = s.pool.set_coverage_via_governance(&at(0), 0);
    assert_eq!(res, Err(Rejection::Contract(InsuranceError::InvalidAmount)));

    let res = s.pool.set_coverage_via_governance(&at(0), -1_000_000);
    assert_eq!(res, Err(Rejection::Contract(InsuranceError::InvalidAmount)));
}

#[test]
fn governance_can_set_premium_rate() {
    let mut s = setup();
    let res = s.pool.set_premium_rate_via_governance(&at(0), 500);
    assert!(res.is_ok());
}

#[test]
fn coverage_update_affects_future_claims() {
    let mut s = setup();
    let lp = s.generate();

    s.pool.deposit_premium(&at(0), lp, COVERAGE * 2).unwrap();
    let payout1 = s.pool.claim(&at(0), 1).unwrap();
    assert_eq!(payout1, COVERAGE);

    let new_coverage = 3_000_000_000;
    s.pool.set_coverage_via_governance(&at(0), new_coverage).unwrap();

    s.pool.deposit_premium(&at(0), lp, new_coverage * 2).unwrap();
    let payout2 = s.pool.claim(&at(0), 2).unwrap();
    assert_eq!(payout2, new_coverage);
}

// ── Further behaviour of the pool ───────────────────────────────────────────

#[test]
fn operations_fail_before_initialization() {
    let mut pool = InsurancePool::new();
    assert_eq!(pool.claim(&at(0), 1), Err(Rejection::Contract(InsuranceError::NotInitialized)));
    assert_eq!(
        pool.propose_coverage_change(&at(0), 5),
        Err(Rejection::Contract(InsuranceError::NotInitialized))
    );
    assert_eq!(pool.get_coverage(), 0);
    assert_eq!(pool.get_pool_balance(), 0);
}

#[test]
fn initialize_rejects_non_positive_coverage() {
    let mut pool = InsurancePool::new();
    assert_eq!(
        pool.initialize(&at(0), Address(1), 0),
        Err(Rejection::Contract(InsuranceError::InvalidAmount))
    );
    assert_eq!(pool.admin, None);
}

#[test]
fn unsigned_calls_are_rejected() {
    let mut s = setup();
    let lp = s.generate();
    let nobody = Invocation::signed_by(0, 0, vec![]);
    assert_eq!(s.pool.claim(&nobody, 1), Err(Rejection::NotAuthorized(s.admin)));
    assert_eq!(s.pool.deposit_premium(&nobody, lp, 10), Err(Rejection::NotAuthorized(lp)));
    let by_lp = Invocation::signed_by(0, 0, vec![lp]);
    assert!(s.pool.deposit_premium(&by_lp, lp, 10).is_ok());
    assert_eq!(s.pool.claim(&by_lp, 1), Err(Rejection::NotAuthorized(s.admin)));
    let by_admin = Invocation::signed_by(0, 0, vec![lp, s.admin]);
    assert_eq!(s.pool.claim(&by_admin, 1), Ok(10));
}

#[test]
fn eta_is_three_days_after_proposal() {
    let mut s = setup();
    assert_eq!(TIMELOCK_DELAY_SECONDS, 259_200);
    let eta = s.pool.propose_coverage_change(&at(1_000), 7).unwrap();
    assert_eq!(eta, 1_000 + 259_200);
    assert_eq!(s.pool.execute_coverage_change(&at(eta - 1)), Err(InsuranceError::TimelockNotExpired));
    // The eta saturates at the end of time.
    let eta_max = s.pool.propose_coverage_change(&at(u64::MAX - 5), 7).unwrap();
    assert_eq!(eta_max, u64::MAX);
}

#[test]
fn proposals_overwrite_and_record_events() {
    let mut s = setup();
    s.pool.propose_coverage_change(&at(0), 11).unwrap();
    s.pool.propose_coverage_change(&at(10), 22).unwrap();
    assert_eq!(s.pool.get_pending_coverage(), Some((22, 10 + TIMELOCK_DELAY_SECONDS)));
    assert_eq!(
        s.pool.events,
        vec![
            PoolEvent::CoverageProposed { new_coverage: 11, eta: TIMELOCK_DELAY_SECONDS },
            PoolEvent::CoverageProposed { new_coverage: 22, eta: 10 + TIMELOCK_DELAY_SECONDS },
        ]
    );
    assert_eq!(
        s.pool.propose_coverage_change(&at(0), 0),
        Err(Rejection::Contract(InsuranceError::InvalidAmount))
    );
}

#[test]
fn cancel_without_proposal_is_rejected() {
    let mut s = setup();
    assert_eq!(
        s.pool.cancel_coverage_change(&at(0)),
        Err(Rejection::Contract(InsuranceError::NoPendingProposal))
    );
    assert_eq!(
        s.pool.cancel_admin_transfer(&at(0)),
        Err(Rejection::Contract(InsuranceError::NoPendingProposal))
    );
}

#[test]
fn premiums_saturate_at_the_numeric_bound() {
    let mut s = setup();
    let lp = s.generate();
    s.pool.deposit_premium(&at(0), lp, i128::MAX).unwrap();
    s.pool.deposit_premium(&at(0), lp, 5).unwrap();
    assert_eq!(s.pool.get_pool_balance(), i128::MAX);
    assert_eq!(s.pool.get_premiums_paid(lp), i128::MAX);
}

#[test]
fn claim_records_payout_event() {
    let mut s = setup();
    let lp = s.generate();
    s.pool.deposit_premium(&at(0), lp, 300).unwrap();
    s.pool.claim(&at(0), 5).unwrap();
    assert_eq!(s.pool.events.last(), Some(&PoolEvent::Claimed { invoice_id: 5, payout: 300 }));
}

#[test]
fn error_codes_are_stable() {
    assert_eq!(InsuranceError::NotInitialized.code(), 1);
    assert_eq!(InsuranceError::AlreadyClaimed.code(), 2);
    assert_eq!(InsuranceError::InvalidAmount.code(), 3);
    assert_eq!(InsuranceError::PoolEmpty.code(), 4);
    assert_eq!(InsuranceError::AlreadyInitialized.code(), 5);
    assert_eq!(InsuranceError::NoPendingProposal.code(), 6);
    assert_eq!(InsuranceError::TimelockNotExpired.code(), 7);
}
