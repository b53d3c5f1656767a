use std::collections::HashMap;

use iln_contracts::distribution::{
    DistributionError, DistributionEvent, IlnDistribution, RewardParamsUpdated,
    DEFAULT_HALF_TOKEN as HALF_TOKEN, DEFAULT_HUNDRED_USDC_STROOPS as HUNDRED_USDC_STROOPS,
};
use iln_contracts::host::{Address, Invocation, Rejection};

/// The distribution contract together with the governance-token balances
/// its claims mint.
struct Harness {
    dist: IlnDistribution,
    balances: HashMap<u64, i128>,
    next_address: u64,
}

impl Harness {
    fn new() -> Harness {
        let mut dist = IlnDistribution::new();
        dist.initialize(Address(1), Address(2)).unwrap();
        Harness { dist, balances: HashMap::new(), next_address: 2 }
    }

    fn generate(&mut self) -> Address {
        self.next_address += 1;
        Address(self.next_address)
    }

    fn claim_tokens(&mut self, claimer: Address) -> i128 {
        let amount = self.dist.claim_tokens(&inv(), claimer).unwrap();
        if amount > 0 {
            *self.balances.entry(claimer.0).or_insert(0) += amount;
        }
        amount
    }

    fn balance(&self, who: Address) -> i128 {
        *self.balances.get(&who.0).unwrap_or(&0)
    }
}

fn inv() -> Invocation {
    Invocation::mocked(0, 0)
}

#[test]
fn lp_earns_on_funding_and_cannot_double_claim() {
    let mut h = Harness::new();
    let lp = h.generate();
    h.dist.accrue_lp(&inv(), lp, HUNDRED_USDC_STROOPS).unwrap();

    let claimed = h.claim_tokens(lp);
    assert_eq!(claimed, 10_000_000);
    assert_eq!(h.balance(lp), 10_000_000);

    let second_claim = h.claim_tokens(lp);
    assert_eq!(second_claim, 0);
    assert_eq!(h.balance(lp), 10_000_000);
}

#[test]
fn freelancer_and_payer_earn_on_settlement() {
    let mut h = Harness::new();
    let freelancer = h.generate();
    let payer = h.generate();

    h.dist.accrue_settlement(&inv(), freelancer, payer, true).unwrap();

    assert_eq!(h.claim_tokens(freelancer), HALF_TOKEN);
    assert_eq!(h.claim_tokens(payer), HALF_TOKEN);
    assert_eq!(h.balance(freelancer), HALF_TOKEN);
    assert_eq!(h.balance(payer), HALF_TOKEN);
}

#[test]
fn late_settlement_does_not_reward_payer() {
    let mut h = Harness::new();
    let freelancer = h.generate();
    let payer = h.generate();

    h.dist.accrue_settlement(&inv(), freelancer, payer, false).unwrap();

    assert_eq!(h.claim_tokens(freelancer), HALF_TOKEN);
    assert_eq!(h.claim_tokens(payer), 0);
}

#[test]
fn update_reward_params_changes_earned_amounts() {
    let mut h = Harness::new();
    let freelancer = h.generate();
    let payer = h.generate();

    h.dist.accrue_settlement(&inv(), freelancer, payer, true).unwrap();
    assert_eq!(h.dist.get_accrual(freelancer), HALF_TOKEN);
    assert_eq!(h.dist.get_accrual(payer), HALF_TOKEN);

    h.dist.update_reward_params(&inv(), 10_000_000, 1_000_000_000, 10_000_000).unwrap();

    let freelancer2 = h.generate();
    let payer2 = h.generate();
    h.dist.accrue_settlement(&inv(), freelancer2, payer2, true).unwrap();
    assert_eq!(h.dist.get_accrual(freelancer2), 10_000_000);
    assert_eq!(h.dist.get_accrual(payer2), 10_000_000);
}

#[test]
fn update_reward_params_affects_lp_rewards() {
    let mut h = Harness::new();
    let lp = h.generate();

    h.dist.accrue_lp(&inv(), lp, HUNDRED_USDC_STROOPS).unwrap();
    assert_eq!(h.dist.get_accrual(lp), 10_000_000);

    h.dist.update_reward_params(&inv(), 5_000_000, 1_000_000_000, 20_000_000).unwrap();

    let lp2 = h.generate();
    h.dist.accrue_lp(&inv(), lp2, HUNDRED_USDC_STROOPS).unwrap();
    assert_eq!(h.dist.get_accrual(lp2), 20_000_000);
}

// ── Further behaviour of the distribution contract ─────────────────────────

#[test]
fn distribution_initialize_is_single_shot() {
    let mut h = Harness::new();
    assert_eq!(h.dist.initialize(Address(9), Address(9)), Err(DistributionError::AlreadyInitialized));
    assert_eq!(h.dist.iln_contract, Some(Address(1)));
}

#[test]
fn only_the_liquidity_contract_reports_accruals() {
    let mut h = Harness::new();
    let lp = h.generate();
    let by_lp = Invocation::signed_by(0, 0, vec![lp]);
    assert_eq!(
        h.dist.accrue_lp(&by_lp, lp, HUNDRED_USDC_STROOPS),
        Err(Rejection::NotAuthorized(Address(1)))
    );
    let by_iln = Invocation::signed_by(0, 0, vec![Address(1)]);
    assert_eq!(h.dist.accrue_lp(&by_iln, lp, HUNDRED_USDC_STROOPS), Ok(()));
    assert_eq!(h.dist.get_accrual(lp), 10_000_000);
    // Claims need the claimer's own signature.
    assert_eq!(h.dist.claim_tokens(&by_iln, lp), Err(Rejection::NotAuthorized(lp)));
}

#[test]
fn uninitialized_contract_rejects_accruals() {
    let mut dist = IlnDistribution::new();
    assert_eq!(
        dist.accrue_lp(&inv(), Address(3), 100),
        Err(Rejection::Contract(DistributionError::NotInitialized))
    );
    assert_eq!(dist.claim_tokens(&inv(), Address(3)), Ok(0));
}

#[test]
fn non_positive_lp_amounts_are_ignored() {
    let mut h = Harness::new();
    let lp = h.generate();
    h.dist.accrue_lp(&inv(), lp, 0).unwrap();
    h.dist.accrue_lp(&inv(), lp, -5).unwrap();
    assert_eq!(h.dist.get_accrual(lp), 0);
    assert_eq!(h.dist.events.len(), 1); // only the initialisation event
}

#[test]
fn lp_reward_counts_whole_hundreds_only() {
    let mut h = Harness::new();
    let lp = h.generate();
    h.dist.accrue_lp(&inv(), lp, HUNDRED_USDC_STROOPS * 2 + HUNDRED_USDC_STROOPS / 2).unwrap();
    assert_eq!(h.dist.get_accrual(lp), 20_000_000);
    // Non-positive divisor turns LP rewards off.
    h.dist.update_reward_params(&inv(), HALF_TOKEN, 0, 10_000_000).unwrap();
    assert_eq!(h.dist.get_accrual(lp), 0);
}

#[test]
fn further_accruals_are_claimable_again() {
    let mut h = Harness::new();
    let f = h.generate();
    let p = h.generate();
    h.dist.accrue_settlement(&inv(), f, p, true).unwrap();
    assert_eq!(h.claim_tokens(f), HALF_TOKEN);
    h.dist.accrue_settlement(&inv(), f, p, false).unwrap();
    assert_eq!(h.claim_tokens(f), HALF_TOKEN);
    assert_eq!(h.balance(f), 2 * HALF_TOKEN);
    assert_eq!(h.dist.get_accrual(f), 2 * HALF_TOKEN);
}

#[test]
fn reward_params_event_carries_old_and_new_values() {
    let mut h = Harness::new();
    h.dist.update_reward_params(&inv(), 1, 2, 3).unwrap();
    assert_eq!(
        h.dist.events.last(),
        Some(&DistributionEvent::RewardParams(RewardParamsUpdated {
            old_half_token: 5_000_000,
            half_token: 1,
            old_hundred_usdc_stroops: 1_000_000_000,
            hundred_usdc_stroops: 2,
            old_lp_multiplier: 10_000_000,
            lp_multiplier: 3,
        }))
    );
}

#[test]
fn rewards_saturate_instead_of_overflowing() {
    let mut h = Harness::new();
    let f = h.generate();
    let p = h.generate();
    h.dist.update_reward_params(&inv(), i128::MAX, 1, i128::MAX).unwrap();
    h.dist.accrue_settlement(&inv(), f, p, true).unwrap();
    h.dist.accrue_settlement(&inv(), f, p, true).unwrap();
    h.dist.accrue_lp(&inv(), f, 7).unwrap();
    assert_eq!(h.dist.get_accrual(f), i128::MAX);
    assert_eq!(h.claim_tokens(f), i128::MAX);
    assert_eq!(h.claim_tokens(f), 0);
}
