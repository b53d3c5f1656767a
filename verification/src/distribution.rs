//! Governance-token distribution.
//!
//! The liquidity contract reports funding volume per LP and settlements per
//! freelancer and payer; participants claim governance tokens in proportion:
//! `lp_multiplier` tokens per `hundred_usdc_stroops` of funded volume, and
//! `half_token` tokens per settlement (per on-time settlement for payers).
//! Claims pay the difference between what was earned and what was claimed.

use std::collections::HashMap;
use vstd::prelude::*;

use crate::arith::{clamp_i128, sat_add_i128, sat_mul_i128, sat_sub_i128};
use crate::host::{get_or, Address, Invocation, Rejection};

verus! {

broadcast use vstd::std_specs::hash::group_hash_axioms;

/// Tokens per settlement, until governance changes it.
pub const DEFAULT_HALF_TOKEN: i128 = 5_000_000;

/// Funded volume (in stroops) that earns one LP multiplier, until governance
/// changes it.
pub const DEFAULT_HUNDRED_USDC_STROOPS: i128 = 1_000_000_000;

/// Tokens per `hundred_usdc_stroops` of funded volume, until governance
/// changes it.
pub const DEFAULT_LP_MULTIPLIER: i128 = 10_000_000;

/// Why a distribution call failed.
#[derive(Copy, Clone, Debug, PartialEq, Eq, Structural)]
pub enum DistributionError {
    /// `initialize` was called a second time.
    AlreadyInitialized,
    /// The contract has not been initialised.
    NotInitialized,
}

/// Emitted once, when the contract is initialised.
#[derive(Clone, Copy, Debug, PartialEq, Eq, Structural)]
pub struct ContractInitialized {
    pub iln_contract: Address,
    pub gov_token: Address,
}

/// Emitted when an LP's funded volume accrual increases.
#[derive(Clone, Copy, Debug, PartialEq, Eq, Structural)]
pub struct LpVolumeAccrued {
    pub lp: Address,
    pub amount_usdc_equivalent: i128,
}

/// Emitted when a settlement is recorded for a freelancer/payer.
#[derive(Clone, Copy, Debug, PartialEq, Eq, Structural)]
pub struct SettlementAccrued {
    pub freelancer: Address,
    pub payer: Address,
    pub settled_on_time: bool,
}

/// Emitted when a participant claims accrued governance tokens.
#[derive(Clone, Copy, Debug, PartialEq, Eq, Structural)]
pub struct TokensClaimed {
    pub claimer: Address,
    pub amount: i128,
}

/// Emitted when governance replaces the reward parameters (old and new values).
#[derive(Clone, Copy, Debug, PartialEq, Eq, Structural)]
pub struct RewardParamsUpdated {
    pub old_half_token: i128,
    pub half_token: i128,
    pub old_hundred_usdc_stroops: i128,
    pub hundred_usdc_stroops: i128,
    pub old_lp_multiplier: i128,
    pub lp_multiplier: i128,
}

/// Events published by the distribution contract, with their topics.
#[derive(Clone, Copy, Debug, PartialEq, Eq, Structural)]
pub enum DistributionEvent {
    /// Topic `init`.
    Initialized(ContractInitialized),
    /// Topics `lp_accr, lp`.
    LpAccrued(LpVolumeAccrued),
    /// Topics `settled, freelancer, payer`.
    Settled(SettlementAccrued),
    /// Topics `claimed, claimer`.
    Claimed(TokensClaimed),
    /// Topic `rwrd_upd`.
    RewardParams(RewardParamsUpdated),
}

/// The distribution contract's storage and event log.
pub struct IlnDistribution {
    pub initialized: bool,
    /// The liquidity contract: the only caller allowed to report accruals.
    pub iln_contract: Option<Address>,
    /// The governance token minted on claims.
    pub gov_token: Option<Address>,
    /// Funded volume per LP, keyed by address.
    pub lp_funded_volume: HashMap<u64, i128>,
    /// Settlements per freelancer, keyed by address.
    pub freelancer_settled: HashMap<u64, u64>,
    /// On-time settlements per payer, keyed by address.
    pub payer_on_time_settled: HashMap<u64, u64>,
    /// Tokens already claimed per participant, keyed by address.
    pub claimed: HashMap<u64, i128>,
    pub half_token: Option<i128>,
    pub hundred_usdc_stroops: Option<i128>,
    pub lp_multiplier: Option<i128>,
    /// Events published so far, oldest first.
    pub events: Vec<DistributionEvent>,
}

/// The abstract state of an [`IlnDistribution`].
#[verifier::ext_equal]
pub struct DistributionModel {
    pub initialized: bool,
    pub iln_contract: Option<Address>,
    pub gov_token: Option<Address>,
    pub lp_funded_volume: Map<u64, i128>,
    pub freelancer_settled: Map<u64, u64>,
    pub payer_on_time_settled: Map<u64, u64>,
    pub claimed: Map<u64, i128>,
    pub half_token: Option<i128>,
    pub hundred_usdc_stroops: Option<i128>,
    pub lp_multiplier: Option<i128>,
    pub events: Seq<DistributionEvent>,
}

impl View for IlnDistribution {
    type V = DistributionModel;

    open spec fn view(&self) -> DistributionModel {
        DistributionModel {
            initialized: self.initialized,
            iln_contract: self.iln_contract,
            gov_token: self.gov_token,
            lp_funded_volume: self.lp_funded_volume@,
            freelancer_settled: self.freelancer_settled@,
            payer_on_time_settled: self.payer_on_time_settled@,
            claimed: self.claimed@,
            half_token: self.half_token,
            hundred_usdc_stroops: self.hundred_usdc_stroops,
            lp_multiplier: self.lp_multiplier,
            events: self.events@,
        }
    }
}

/// The reward for `lp_volume` of funding: whole multiples of
/// `hundred_usdc` times `lp_mult`, or nothing when `hundred_usdc` is not
/// positive.
pub open spec fn lp_reward(lp_volume: i128, hundred_usdc: i128, lp_mult: i128) -> int {
    if hundred_usdc > 0 {
        clamp_i128((lp_volume / hundred_usdc) * lp_mult)
    } else {
        0
    }
}

/// Total tokens earned for the given activity under the given parameters
/// (each step saturating at the bounds of `i128`).
pub open spec fn earned_for(
    lp_volume: i128,
    freelancer_settled: u64,
    payer_on_time: u64,
    half_token: i128,
    hundred_usdc: i128,
    lp_mult: i128,
) -> int {
    clamp_i128(
        clamp_i128(
            lp_reward(lp_volume, hundred_usdc, lp_mult) + clamp_i128(freelancer_settled * half_token),
        ) + clamp_i128(payer_on_time * half_token),
    )
}

impl DistributionModel {
    /// Funded volumes and claimed totals are never negative.
    pub open spec fn wf(self) -> bool {
        &&& forall|k: u64| #[trigger]
            self.lp_funded_volume.contains_key(k) ==> self.lp_funded_volume[k] >= 0
        &&& forall|k: u64| #[trigger] self.claimed.contains_key(k) ==> self.claimed[k] >= 0
    }

    pub open spec fn half(self) -> i128 {
        self.half_token.unwrap_or(DEFAULT_HALF_TOKEN)
    }

    pub open spec fn hundred_usdc(self) -> i128 {
        self.hundred_usdc_stroops.unwrap_or(DEFAULT_HUNDRED_USDC_STROOPS)
    }

    pub open spec fn lp_mult(self) -> i128 {
        self.lp_multiplier.unwrap_or(DEFAULT_LP_MULTIPLIER)
    }

    pub open spec fn volume_of(self, p: Address) -> i128 {
        get_or(self.lp_funded_volume, p.key(), 0)
    }

    pub open spec fn settled_of(self, p: Address) -> u64 {
        get_or(self.freelancer_settled, p.key(), 0)
    }

    pub open spec fn on_time_of(self, p: Address) -> u64 {
        get_or(self.payer_on_time_settled, p.key(), 0)
    }

    pub open spec fn claimed_of(self, p: Address) -> i128 {
        get_or(self.claimed, p.key(), 0)
    }

    /// Tokens `p` has earned over the contract's lifetime, at the current
    /// parameters.
    pub open spec fn earned(self, p: Address) -> int {
        earned_for(
            self.volume_of(p),
            self.settled_of(p),
            self.on_time_of(p),
            self.half(),
            self.hundred_usdc(),
            self.lp_mult(),
        )
    }

    /// The liquidity contract, provided the contract is initialised and the
    /// liquidity contract signed this call.
    pub open spec fn invoker_check(self, inv: Invocation) -> Result<
        Address,
        Rejection<DistributionError>,
    > {
        match self.iln_contract {
            None => Err(Rejection::Contract(DistributionError::NotInitialized)),
            Some(a) => if inv.authorizes(a) {
                Ok(a)
            } else {
                Err(Rejection::NotAuthorized(a))
            },
        }
    }

    pub open spec fn initialize(self, iln_contract: Address, gov_token: Address) -> (
        DistributionModel,
        Result<(), DistributionError>,
    ) {
        if self.initialized {
            (self, Err(DistributionError::AlreadyInitialized))
        } else {
            (
                DistributionModel {
                    initialized: true,
                    iln_contract: Some(iln_contract),
                    gov_token: Some(gov_token),
                    events: self.events.push(
                        DistributionEvent::Initialized(ContractInitialized { iln_contract, gov_token }),
                    ),
                    ..self
                },
                Ok(()),
            )
        }
    }

    pub open spec fn accrue_lp(self, inv: Invocation, lp: Address, amount: i128) -> (
        DistributionModel,
        Result<(), Rejection<DistributionError>>,
    ) {
        match self.invoker_check(inv) {
            Err(e) => (self, Err(e)),
            Ok(_) => if amount <= 0 {
                (self, Ok(()))
            } else {
                (
                    DistributionModel {
                        lp_funded_volume: self.lp_funded_volume.insert(
                            lp.key(),
                            clamp_i128(self.volume_of(lp) + amount) as i128,
                        ),
                        events: self.events.push(
                            DistributionEvent::LpAccrued(
                                LpVolumeAccrued { lp, amount_usdc_equivalent: amount },
                            ),
                        ),
                        ..self
                    },
                    Ok(()),
                )
            },
        }
    }

    pub open spec fn accrue_settlement(
        self,
        inv: Invocation,
        freelancer: Address,
        payer: Address,
        settled_on_time: bool,
    ) -> (DistributionModel, Result<(), Rejection<DistributionError>>) {
        match self.invoker_check(inv) {
            Err(e) => (self, Err(e)),
            Ok(_) => (
                DistributionModel {
                    freelancer_settled: self.freelancer_settled.insert(
                        freelancer.key(),
                        sat_succ(self.settled_of(freelancer)),
                    ),
                    payer_on_time_settled: if settled_on_time {
                        self.payer_on_time_settled.insert(payer.key(), sat_succ(self.on_time_of(payer)))
                    } else {
                        self.payer_on_time_settled
                    },
                    events: self.events.push(
                        DistributionEvent::Settled(
                            SettlementAccrued { freelancer, payer, settled_on_time },
                        ),
                    ),
                    ..self
                },
                Ok(()),
            ),
        }
    }

    /// What `claimer` may claim now: earned minus already claimed.
    pub open spec fn claimable(self, claimer: Address) -> int {
        clamp_i128(self.earned(claimer) - self.claimed_of(claimer))
    }

    pub open spec fn claim_tokens(self, inv: Invocation, claimer: Address) -> (
        DistributionModel,
        Result<i128, Rejection<DistributionError>>,
    ) {
        if !inv.authorizes(claimer) {
            (self, Err(Rejection::NotAuthorized(claimer)))
        } else if self.claimable(claimer) <= 0 {
            (self, Ok(0))
        } else if self.gov_token is None {
            (self, Err(Rejection::Contract(DistributionError::NotInitialized)))
        } else {
            let c = self.claimable(claimer) as i128;
            (
                DistributionModel {
                    claimed: self.claimed.insert(
                        claimer.key(),
                        clamp_i128(self.claimed_of(claimer) + c) as i128,
                    ),
                    events: self.events.push(
                        DistributionEvent::Claimed(TokensClaimed { claimer, amount: c }),
                    ),
                    ..self
                },
                Ok(c),
            )
        }
    }

    pub open spec fn update_reward_params(
        self,
        inv: Invocation,
        half_token: i128,
        hundred_usdc_stroops: i128,
        lp_multiplier: i128,
    ) -> (DistributionModel, Result<(), Rejection<DistributionError>>) {
        match self.invoker_check(inv) {
            Err(e) => (self, Err(e)),
            Ok(_) => (
                DistributionModel {
                    half_token: Some(half_token),
                    hundred_usdc_stroops: Some(hundred_usdc_stroops),
                    lp_multiplier: Some(lp_multiplier),
                    events: self.events.push(
                        DistributionEvent::RewardParams(
                            RewardParamsUpdated {
                                old_half_token: self.half(),
                                half_token,
                                old_hundred_usdc_stroops: self.hundred_usdc(),
                                hundred_usdc_stroops,
                                old_lp_multiplier: self.lp_mult(),
                                lp_multiplier,
                            },
                        ),
                    ),
                    ..self
                },
                Ok(()),
            ),
        }
    }
}

/// `n + 1`, saturating at `u64::MAX`.
pub open spec fn sat_succ(n: u64) -> u64 {
    if n == u64::MAX {
        n
    } else {
        (n + 1) as u64
    }
}

/// A claim pays out everything claimable, so a second claim right after a
/// successful one pays nothing.
pub proof fn law_no_double_claim(m: DistributionModel, inv: Invocation, claimer: Address)
    requires
        m.wf(),
        m.claim_tokens(inv, claimer).1 is Ok,
    ensures
        m.claim_tokens(inv, claimer).0.claim_tokens(inv, claimer).1 == Ok::<
            i128,
            Rejection<DistributionError>,
        >(0),
{
    let m2 = m.claim_tokens(inv, claimer).0;
    assert(m2.earned(claimer) == m.earned(claimer));
}

/// A successful claim pays exactly what was earned minus what was claimed
/// before, and afterwards the claimed total equals the earnings.
pub proof fn law_claim_pays_difference(m: DistributionModel, inv: Invocation, claimer: Address)
    requires
        m.wf(),
        m.claim_tokens(inv, claimer).1 is Ok,
    ensures
        ({
            let (m2, r) = m.claim_tokens(inv, claimer);
            let c = r.unwrap();
            &&& c >= 0
            &&& c > 0 ==> c == m.earned(claimer) - m.claimed_of(claimer) && m2.claimed_of(claimer)
                == m.earned(claimer)
            &&& c == 0 ==> m2 == m
        }),
{
}

/// Funding reported for an LP adds to its volume (saturating), and any
/// volume earns `lp_mult` tokens per whole `hundred_usdc` under the current
/// parameters.
pub proof fn law_lp_accrual(m: DistributionModel, inv: Invocation, lp: Address, amount: i128)
    requires
        m.wf(),
        m.accrue_lp(inv, lp, amount).1 is Ok,
        amount > 0,
    ensures
        m.accrue_lp(inv, lp, amount).0.volume_of(lp) == clamp_i128(m.volume_of(lp) + amount),
        m.accrue_lp(inv, lp, amount).0.wf(),
{
}

/// A settlement credits the freelancer with one settlement, and the payer
/// with one on-time settlement exactly when it was on time.
pub proof fn law_settlement_credits(
    m: DistributionModel,
    inv: Invocation,
    freelancer: Address,
    payer: Address,
    on_time: bool,
)
    requires
        m.accrue_settlement(inv, freelancer, payer, on_time).1 is Ok,
        freelancer != payer,
    ensures
        ({
            let m2 = m.accrue_settlement(inv, freelancer, payer, on_time).0;
            &&& m2.settled_of(freelancer) == sat_succ(m.settled_of(freelancer))
            &&& on_time ==> m2.on_time_of(payer) == sat_succ(m.on_time_of(payer))
            &&& !on_time ==> m2.on_time_of(payer) == m.on_time_of(payer)
        }),
{
}

/// Only the liquidity contract reports activity and sets parameters: without
/// its signature these calls are rejected and nothing changes.
pub proof fn law_reports_need_liquidity_contract(
    m: DistributionModel,
    inv: Invocation,
    a: Address,
    b: Address,
    flag: bool,
    x: i128,
    y: i128,
    z: i128,
)
    requires
        m.iln_contract matches Some(iln) && !inv.authorizes(iln),
    ensures
        m.accrue_lp(inv, a, x).0 == m && m.accrue_lp(inv, a, x).1 is Err,
        m.accrue_settlement(inv, a, b, flag).0 == m && m.accrue_settlement(inv, a, b, flag).1 is Err,
        m.update_reward_params(inv, x, y, z).0 == m && m.update_reward_params(inv, x, y, z).1 is Err,
{
}

/// Every operation keeps volumes and claimed totals non-negative.
pub proof fn law_operations_preserve_wf(
    m: DistributionModel,
    inv: Invocation,
    a: Address,
    b: Address,
    flag: bool,
    x: i128,
    y: i128,
    z: i128,
)
    requires
        m.wf(),
    ensures
        m.initialize(a, b).0.wf(),
        m.accrue_lp(inv, a, x).0.wf(),
        m.accrue_settlement(inv, a, b, flag).0.wf(),
        m.claim_tokens(inv, a).0.wf(),
        m.update_reward_params(inv, x, y, z).0.wf(),
{
}

/// Initialising a fresh contract succeeds and records the liquidity contract
/// as the accrual reporter and `gov_token` as the token minted on claims; no
/// balance, counter or parameter changes.
pub proof fn law_initialize_records_addresses(
    m: DistributionModel,
    iln_contract: Address,
    gov_token: Address,
)
    requires
        !m.initialized,
    ensures
        ({
            let (m2, r) = m.initialize(iln_contract, gov_token);
            &&& r == Ok::<(), DistributionError>(())
            &&& m2.initialized
            &&& m2.iln_contract == Some(iln_contract)
            &&& m2.gov_token == Some(gov_token)
            &&& m2.lp_funded_volume == m.lp_funded_volume
            &&& m2.freelancer_settled == m.freelancer_settled
            &&& m2.payer_on_time_settled == m.payer_on_time_settled
            &&& m2.claimed == m.claimed
            &&& m2.half() == m.half() && m2.hundred_usdc() == m.hundred_usdc()
                && m2.lp_mult() == m.lp_mult()
        }),
{
}

/// Initialisation happens once: a second call is refused with
/// `AlreadyInitialized` and changes nothing.
pub proof fn law_initialize_once(m: DistributionModel, iln_contract: Address, gov_token: Address)
    requires
        m.initialized,
    ensures
        m.initialize(iln_contract, gov_token) == (m, Err::<(), DistributionError>(
            DistributionError::AlreadyInitialized,
        )),
{
}

/// With non-negative parameters and no saturation, a participant's earnings
/// are the sum of its three rewards: `lp_mult` per whole `hundred_usdc` of
/// funded volume, `half_token` per settlement as freelancer, and
/// `half_token` per on-time settlement as payer.
pub proof fn law_earned_is_sum_of_rewards(m: DistributionModel, p: Address)
    requires
        m.wf(),
        m.half() >= 0,
        m.lp_mult() >= 0,
        m.hundred_usdc() > 0,
        (m.volume_of(p) / m.hundred_usdc()) * m.lp_mult() + m.settled_of(p) * m.half()
            + m.on_time_of(p) * m.half() <= i128::MAX,
    ensures
        m.earned(p) == (m.volume_of(p) / m.hundred_usdc()) * m.lp_mult() + m.settled_of(p)
            * m.half() + m.on_time_of(p) * m.half(),
{
    let v = m.volume_of(p);
    let hu = m.hundred_usdc();
    let mult = m.lp_mult();
    let h = m.half();
    let s = m.settled_of(p);
    let o = m.on_time_of(p);
    if m.lp_funded_volume.contains_key(p.key()) {
        assert(m.lp_funded_volume[p.key()] >= 0);
    }
    assert(v >= 0);
    let q = v / hu;
    assert(q >= 0) by (nonlinear_arith)
        requires
            v >= 0,
            hu > 0,
            q == v / hu,
    ;
    assert(q * mult >= 0) by (nonlinear_arith)
        requires
            q >= 0,
            mult >= 0,
    ;
    assert(s * h >= 0) by (nonlinear_arith)
        requires
            h >= 0,
    ;
    assert(o * h >= 0) by (nonlinear_arith)
        requires
            h >= 0,
    ;
}

/// With a non-positive `hundred_usdc`, funded volume earns nothing: only
/// settlements count, `half_token` each (absent saturation).
pub proof fn law_no_volume_reward_without_unit(m: DistributionModel, p: Address)
    requires
        m.hundred_usdc() <= 0,
        m.half() >= 0,
        m.settled_of(p) * m.half() + m.on_time_of(p) * m.half() <= i128::MAX,
    ensures
        m.earned(p) == m.settled_of(p) * m.half() + m.on_time_of(p) * m.half(),
{
    let h = m.half();
    let s = m.settled_of(p);
    let o = m.on_time_of(p);
    assert(s * h >= 0) by (nonlinear_arith)
        requires
            h >= 0,
    ;
    assert(o * h >= 0) by (nonlinear_arith)
        requires
            h >= 0,
    ;
}

/// `(n + 1) * h == n * h + h`.
proof fn lemma_one_more_share(n: int, h: int)
    ensures
        (n + 1) * h == n * h + h,
{
    assert((n + 1) * h == n * h + h) by (nonlinear_arith);
}

/// Earnings of `p` at `m`, where every reward is non-negative, grow by
/// exactly `half_token` when one more settlement (as freelancer or as
/// on-time payer) is counted, provided nothing saturates.
proof fn lemma_one_more_settlement(m: DistributionModel, m2: DistributionModel, p: Address)
    requires
        m.wf(),
        m.half() >= 0,
        m.lp_mult() >= 0,
        m2.half() == m.half(),
        m2.hundred_usdc() == m.hundred_usdc(),
        m2.lp_mult() == m.lp_mult(),
        m2.volume_of(p) == m.volume_of(p),
        (m2.settled_of(p) == m.settled_of(p) + 1 && m2.on_time_of(p) == m.on_time_of(p)) || (
        m2.on_time_of(p) == m.on_time_of(p) + 1 && m2.settled_of(p) == m.settled_of(p)),
        m.earned(p) + m.half() <= i128::MAX,
    ensures
        m2.earned(p) == m.earned(p) + m.half(),
{
    let v = m.volume_of(p);
    let hu = m.hundred_usdc();
    let mult = m.lp_mult();
    let h = m.half();
    let s = m.settled_of(p);
    let o = m.on_time_of(p);
    if m.lp_funded_volume.contains_key(p.key()) {
        assert(m.lp_funded_volume[p.key()] >= 0);
    }
    let l = lp_reward(v, hu, mult);
    if hu > 0 {
        let q = v / hu;
        assert(q >= 0) by (nonlinear_arith)
            requires
                v >= 0,
                hu > 0,
                q == v / hu,
        ;
        assert(q * mult >= 0) by (nonlinear_arith)
            requires
                q >= 0,
                mult >= 0,
        ;
    }
    assert(l >= 0);
    assert(s * h >= 0) by (nonlinear_arith)
        requires
            h >= 0,
    ;
    assert(o * h >= 0) by (nonlinear_arith)
        requires
            h >= 0,
    ;
    lemma_one_more_share(s as int, h as int);
    lemma_one_more_share(o as int, h as int);
    assert(m.earned(p) == clamp_i128(l + s * h + o * h));
    if l + s * h + o * h > i128::MAX {
        assert(h == 0);
    }
}

/// An on-time settlement earns its payer exactly one more `half_token` (and
/// the freelancer one more too), provided nothing saturates; a late one
/// leaves the payer's earnings unchanged.
pub proof fn law_settlement_rewards(
    m: DistributionModel,
    inv: Invocation,
    freelancer: Address,
    payer: Address,
    on_time: bool,
)
    requires
        m.wf(),
        m.accrue_settlement(inv, freelancer, payer, on_time).1 is Ok,
        freelancer != payer,
        m.half() >= 0,
        m.lp_mult() >= 0,
        m.settled_of(freelancer) < u64::MAX,
        m.on_time_of(payer) < u64::MAX,
        m.earned(freelancer) + m.half() <= i128::MAX,
        m.earned(payer) + m.half() <= i128::MAX,
    ensures
        ({
            let m2 = m.accrue_settlement(inv, freelancer, payer, on_time).0;
            &&& m2.earned(freelancer) == m.earned(freelancer) + m.half()
            &&& on_time ==> m2.earned(payer) == m.earned(payer) + m.half()
            &&& !on_time ==> m2.earned(payer) == m.earned(payer)
        }),
{
    let m2 = m.accrue_settlement(inv, freelancer, payer, on_time).0;
    assert(m2.settled_of(freelancer) == m.settled_of(freelancer) + 1);
    assert(m2.on_time_of(freelancer) == m.on_time_of(freelancer));
    assert(m2.volume_of(freelancer) == m.volume_of(freelancer));
    lemma_one_more_settlement(m, m2, freelancer);
    assert(m2.settled_of(payer) == m.settled_of(payer));
    assert(m2.volume_of(payer) == m.volume_of(payer));
    if on_time {
        assert(m2.on_time_of(payer) == m.on_time_of(payer) + 1);
        lemma_one_more_settlement(m, m2, payer);
    } else {
        assert(m2.on_time_of(payer) == m.on_time_of(payer));
    }
}

/// A reported settlement is accepted exactly when the liquidity contract
/// signed the call; any other participant's counters are untouched.
pub proof fn law_settlement_touches_only_its_parties(
    m: DistributionModel,
    inv: Invocation,
    freelancer: Address,
    payer: Address,
    on_time: bool,
    other: Address,
)
    requires
        m.iln_contract is Some,
        other != freelancer,
        other != payer,
    ensures
        (m.accrue_settlement(inv, freelancer, payer, on_time).1 is Ok) == inv.authorizes(
            m.iln_contract.unwrap(),
        ),
        m.accrue_settlement(inv, freelancer, payer, on_time).0.settled_of(other) == m.settled_of(
            other,
        ),
        m.accrue_settlement(inv, freelancer, payer, on_time).0.on_time_of(other) == m.on_time_of(
            other,
        ),
        m.accrue_settlement(inv, freelancer, payer, on_time).0.earned(other) == m.earned(other),
{
}

/// Governance parameters take effect: after an accepted update the stored
/// `half_token`, `hundred_usdc_stroops` and `lp_multiplier` are the new
/// values, and no activity or claim record changes.
pub proof fn law_update_reward_params_sets_values(
    m: DistributionModel,
    inv: Invocation,
    half_token: i128,
    hundred_usdc_stroops: i128,
    lp_multiplier: i128,
)
    requires
        m.iln_contract matches Some(iln) && inv.authorizes(iln),
    ensures
        ({
            let (m2, r) = m.update_reward_params(inv, half_token, hundred_usdc_stroops, lp_multiplier);
            &&& r is Ok
            &&& m2.half() == half_token
            &&& m2.hundred_usdc() == hundred_usdc_stroops
            &&& m2.lp_mult() == lp_multiplier
            &&& m2.lp_funded_volume == m.lp_funded_volume
            &&& m2.freelancer_settled == m.freelancer_settled
            &&& m2.payer_on_time_settled == m.payer_on_time_settled
            &&& m2.claimed == m.claimed
        }),
{
}

/// After governance sets the parameters, funding reported for an LP with no
/// other activity earns `(volume / hundred_usdc_stroops) * lp_multiplier`
/// under the new parameters (when that fits in `i128`).
pub proof fn law_new_params_price_lp_funding(
    m: DistributionModel,
    inv: Invocation,
    half_token: i128,
    hundred_usdc_stroops: i128,
    lp_multiplier: i128,
    lp: Address,
    amount: i128,
)
    requires
        m.wf(),
        m.iln_contract matches Some(iln) && inv.authorizes(iln),
        m.volume_of(lp) == 0,
        m.settled_of(lp) == 0,
        m.on_time_of(lp) == 0,
        hundred_usdc_stroops > 0,
        amount > 0,
        i128::MIN <= (amount / hundred_usdc_stroops) * lp_multiplier <= i128::MAX,
    ensures
        ({
            let m2 = m.update_reward_params(inv, half_token, hundred_usdc_stroops, lp_multiplier).0;
            let (m3, r) = m2.accrue_lp(inv, lp, amount);
            &&& r is Ok
            &&& m3.volume_of(lp) == amount
            &&& m3.earned(lp) == (amount / hundred_usdc_stroops) * lp_multiplier
        }),
{
    let m2 = m.update_reward_params(inv, half_token, hundred_usdc_stroops, lp_multiplier).0;
    let m3 = m2.accrue_lp(inv, lp, amount).0;
    assert(m3.volume_of(lp) == amount);
    assert(m3.settled_of(lp) == 0);
    assert(m3.on_time_of(lp) == 0);
    assert(0 * half_token == 0);
}

/// A signed claim by a participant who has earned more than it has claimed
/// always succeeds (once the governance token is set), pays exactly the
/// difference, and records the claimed total as the earnings; other
/// participants' claims are unaffected.
pub proof fn law_claim_pays_whenever_owed(
    m: DistributionModel,
    inv: Invocation,
    claimer: Address,
    other: Address,
)
    requires
        m.wf(),
        inv.authorizes(claimer),
        m.gov_token is Some,
        m.earned(claimer) > m.claimed_of(claimer),
        other != claimer,
    ensures
        ({
            let (m2, r) = m.claim_tokens(inv, claimer);
            &&& r == Ok::<i128, Rejection<DistributionError>>(
                (m.earned(claimer) - m.claimed_of(claimer)) as i128,
            )
            &&& m2.claimed_of(claimer) == m.earned(claimer)
            &&& m2.claimed_of(other) == m.claimed_of(other)
            &&& m2.earned(claimer) == m.earned(claimer)
        }),
{
    if m.claimed.contains_key(claimer.key()) {
        assert(m.claimed[claimer.key()] >= 0);
    }
}

/// A claim pays nothing and changes nothing when nothing is owed, an
/// unsigned claim is refused, and a claim of an owed amount before the
/// governance token is set fails with `NotInitialized`.
pub proof fn law_claim_nothing_owed(m: DistributionModel, inv: Invocation, claimer: Address)
    ensures
        inv.authorizes(claimer) && m.earned(claimer) > m.claimed_of(claimer) && m.gov_token is None
            ==> m.claim_tokens(inv, claimer) == (m, Err::<i128, Rejection<DistributionError>>(
            Rejection::Contract(DistributionError::NotInitialized),
        )),
        !inv.authorizes(claimer) ==> m.claim_tokens(inv, claimer) == (m, Err::<
            i128,
            Rejection<DistributionError>,
        >(Rejection::NotAuthorized(claimer))),
        inv.authorizes(claimer) && m.earned(claimer) <= m.claimed_of(claimer) ==> m.claim_tokens(
            inv,
            claimer,
        ) == (m, Ok::<i128, Rejection<DistributionError>>(0)),
{
}

/// Funding reported for one LP leaves every other LP's volume unchanged, and
/// a non-positive amount is accepted without effect.
pub proof fn law_lp_accrual_is_local(
    m: DistributionModel,
    inv: Invocation,
    lp: Address,
    amount: i128,
    other: Address,
)
    requires
        other != lp,
    ensures
        m.accrue_lp(inv, lp, amount).0.volume_of(other) == m.volume_of(other),
        m.accrue_lp(inv, lp, amount).1 is Ok && amount <= 0 ==> m.accrue_lp(inv, lp, amount).0
            == m,
{
}

/// Before initialisation nobody can report activity or set parameters: each
/// such call is refused with `NotInitialized` and changes nothing.
pub proof fn law_reports_need_initialization(
    m: DistributionModel,
    inv: Invocation,
    a: Address,
    b: Address,
    flag: bool,
    x: i128,
    y: i128,
    z: i128,
)
    requires
        m.iln_contract is None,
    ensures
        m.accrue_lp(inv, a, x) == (m, Err::<(), Rejection<DistributionError>>(
            Rejection::Contract(DistributionError::NotInitialized),
        )),
        m.accrue_settlement(inv, a, b, flag) == (m, Err::<(), Rejection<DistributionError>>(
            Rejection::Contract(DistributionError::NotInitialized),
        )),
        m.update_reward_params(inv, x, y, z) == (m, Err::<(), Rejection<DistributionError>>(
            Rejection::Contract(DistributionError::NotInitialized),
        )),
{
}

impl IlnDistribution {
    /// A contract with empty storage, before `initialize`.
    pub fn new() -> (d: IlnDistribution)
        ensures
            d@ == (DistributionModel {
                initialized: false,
                iln_contract: None,
                gov_token: None,
                lp_funded_volume: Map::empty(),
                freelancer_settled: Map::empty(),
                payer_on_time_settled: Map::empty(),
                claimed: Map::empty(),
                half_token: None,
                hundred_usdc_stroops: None,
                lp_multiplier: None,
                events: Seq::empty(),
            }),
            d@.wf(),
    {
        IlnDistribution {
            initialized: false,
            iln_contract: None,
            gov_token: None,
            lp_funded_volume: HashMap::new(),
            freelancer_settled: HashMap::new(),
            payer_on_time_settled: HashMap::new(),
            claimed: HashMap::new(),
            half_token: None,
            hundred_usdc_stroops: None,
            lp_multiplier: None,
            events: Vec::new(),
        }
    }

    /// Record the liquidity contract (the only accrual reporter) and the
    /// governance token. One-shot.
    pub fn initialize(&mut self, iln_contract: Address, gov_token: Address) -> (r: Result<
        (),
        DistributionError,
    >)
        requires
            old(self)@.wf(),
        ensures
            (final(self)@, r) == old(self)@.initialize(iln_contract, gov_token),
            final(self)@.wf(),
    {
        if self.initialized {
            return Err(DistributionError::AlreadyInitialized);
        }
        self.initialized = true;
        self.iln_contract = Some(iln_contract);
        self.gov_token = Some(gov_token);
        self.events.push(
            DistributionEvent::Initialized(ContractInitialized { iln_contract, gov_token }),
        );
        assert(self@.lp_funded_volume == old(self)@.lp_funded_volume);
        assert(self@.claimed == old(self)@.claimed);
        Ok(())
    }

    /// Add `amount_usdc_equivalent` of funding to `lp`'s volume. Only the
    /// liquidity contract may report; non-positive amounts are ignored.
    pub fn accrue_lp(&mut self, inv: &Invocation, lp: Address, amount_usdc_equivalent: i128) -> (r:
        Result<(), Rejection<DistributionError>>)
        requires
            old(self)@.wf(),
        ensures
            (final(self)@, r) == old(self)@.accrue_lp(*inv, lp, amount_usdc_equivalent),
            final(self)@.wf(),
    {
        if let Err(e) = self.require_iln_invoker(inv) {
            return Err(e);
        }
        if amount_usdc_equivalent <= 0 {
            return Ok(());
        }
        let current = match self.lp_funded_volume.get(&lp.0) {
            Some(v) => {
                assert(old(self)@.lp_funded_volume.contains_key(lp.0));
                *v
            },
            None => 0,
        };
        self.lp_funded_volume.insert(lp.0, sat_add_i128(current, amount_usdc_equivalent));
        assert forall|k: u64| #[trigger] self@.lp_funded_volume.contains_key(k) implies self@.lp_funded_volume[k]
            >= 0 by {
            if k != lp.0 {
                assert(old(self)@.lp_funded_volume.contains_key(k));
            }
        }
        self.events.push(
            DistributionEvent::LpAccrued(LpVolumeAccrued { lp, amount_usdc_equivalent }),
        );
        Ok(())
    }

    /// Record a settlement for `freelancer`, and an on-time settlement for
    /// `payer` when `settled_on_time`. Only the liquidity contract may report.
    pub fn accrue_settlement(
        &mut self,
        inv: &Invocation,
        freelancer: Address,
        payer: Address,
        settled_on_time: bool,
    ) -> (r: Result<(), Rejection<DistributionError>>)
        requires
            old(self)@.wf(),
        ensures
            (final(self)@, r) == old(self)@.accrue_settlement(
                *inv,
                freelancer,
                payer,
                settled_on_time,
            ),
            final(self)@.wf(),
    {
        if let Err(e) = self.require_iln_invoker(inv) {
            return Err(e);
        }
        let freelancer_count = match self.freelancer_settled.get(&freelancer.0) {
            Some(v) => *v,
            None => 0,
        };
        self.freelancer_settled.insert(freelancer.0, freelancer_count.saturating_add(1));
        if settled_on_time {
            let payer_count = match self.payer_on_time_settled.get(&payer.0) {
                Some(v) => *v,
                None => 0,
            };
            self.payer_on_time_settled.insert(payer.0, payer_count.saturating_add(1));
        }
        self.events.push(
            DistributionEvent::Settled(SettlementAccrued { freelancer, payer, settled_on_time }),
        );
        Ok(())
    }

    /// Claim everything `claimer` has earned and not yet claimed; returns the
    /// amount, which the caller mints in the governance token. Returns 0 when
    /// nothing is claimable.
    pub fn claim_tokens(&mut self, inv: &Invocation, claimer: Address) -> (r: Result<
        i128,
        Rejection<DistributionError>,
    >)
        requires
            old(self)@.wf(),
        ensures
            (final(self)@, r) == old(self)@.claim_tokens(*inv, claimer),
            final(self)@.wf(),
            r matches Ok(c) && c > 0 ==> final(self)@.gov_token is Some,
    {
        if !inv.require_auth(claimer) {
            return Err(Rejection::NotAuthorized(claimer));
        }
        let total_earned = self.total_earned(claimer);
        let already_claimed = match self.claimed.get(&claimer.0) {
            Some(v) => *v,
            None => 0,
        };
        let claimable = sat_sub_i128(total_earned, already_claimed);
        if claimable <= 0 {
            return Ok(0);
        }
        if self.gov_token.is_none() {
            return Err(Rejection::Contract(DistributionError::NotInitialized));
        }
        self.claimed.insert(claimer.0, sat_add_i128(already_claimed, claimable));
        self.events.push(DistributionEvent::Claimed(TokensClaimed { claimer, amount: claimable }));
        Ok(claimable)
    }

    /// Tokens `participant` has earned so far (claimed or not).
    pub fn get_accrual(&self, participant: Address) -> (r: i128)
        requires
            self@.wf(),
        ensures
            r == self@.earned(participant),
    {
        self.total_earned(participant)
    }

    /// Replace the reward parameters. Only the liquidity contract (acting on
    /// a governance decision) may call this.
    pub fn update_reward_params(
        &mut self,
        inv: &Invocation,
        half_token: i128,
        hundred_usdc_stroops: i128,
        lp_multiplier: i128,
    ) -> (r: Result<(), Rejection<DistributionError>>)
        requires
            old(self)@.wf(),
        ensures
            (final(self)@, r) == old(self)@.update_reward_params(
                *inv,
                half_token,
                hundred_usdc_stroops,
                lp_multiplier,
            ),
            final(self)@.wf(),
    {
        if let Err(e) = self.require_iln_invoker(inv) {
            return Err(e);
        }
        let old_half_token = self.get_half_token();
        let old_hundred_usdc_stroops = self.get_hundred_usdc_stroops();
        let old_lp_multiplier = self.get_lp_multiplier();
        self.half_token = Some(half_token);
        self.hundred_usdc_stroops = Some(hundred_usdc_stroops);
        self.lp_multiplier = Some(lp_multiplier);
        self.events.push(
            DistributionEvent::RewardParams(
                RewardParamsUpdated {
                    old_half_token,
                    half_token,
                    old_hundred_usdc_stroops,
                    hundred_usdc_stroops,
                    old_lp_multiplier,
                    lp_multiplier,
                },
            ),
        );
        assert(self@.lp_funded_volume == old(self)@.lp_funded_volume);
        assert(self@.claimed == old(self)@.claimed);
        Ok(())
    }

    fn get_half_token(&self) -> (r: i128)
        ensures
            r == self@.half(),
    {
        match self.half_token {
            Some(v) => v,
            None => DEFAULT_HALF_TOKEN,
        }
    }

    fn get_hundred_usdc_stroops(&self) -> (r: i128)
        ensures
            r == self@.hundred_usdc(),
    {
        match self.hundred_usdc_stroops {
            Some(v) => v,
            None => DEFAULT_HUNDRED_USDC_STROOPS,
        }
    }

    fn get_lp_multiplier(&self) -> (r: i128)
        ensures
            r == self@.lp_mult(),
    {
        match self.lp_multiplier {
            Some(v) => v,
            None => DEFAULT_LP_MULTIPLIER,
        }
    }

    fn total_earned(&self, participant: Address) -> (r: i128)
        requires
            self@.wf(),
        ensures
            r == self@.earned(participant),
    {
        let lp_volume = match self.lp_funded_volume.get(&participant.0) {
            Some(v) => {
                assert(self@.lp_funded_volume.contains_key(participant.0));
                *v
            },
            None => 0,
        };
        let freelancer_settled = match self.freelancer_settled.get(&participant.0) {
            Some(v) => *v,
            None => 0,
        };
        let payer_on_time = match self.payer_on_time_settled.get(&participant.0) {
            Some(v) => *v,
            None => 0,
        };
        let hundred_usdc = self.get_hundred_usdc_stroops();
        let lp_mult = self.get_lp_multiplier();
        let half_token = self.get_half_token();
        let lp_reward = if hundred_usdc > 0 {
            sat_mul_i128(lp_volume / hundred_usdc, lp_mult)
        } else {
            0
        };
        let freelancer_reward = sat_mul_i128(freelancer_settled as i128, half_token);
        let payer_reward = sat_mul_i128(payer_on_time as i128, half_token);
        sat_add_i128(sat_add_i128(lp_reward, freelancer_reward), payer_reward)
    }

    fn require_iln_invoker(&self, inv: &Invocation) -> (r: Result<
        Address,
        Rejection<DistributionError>,
    >)
        ensures
            r == self@.invoker_check(*inv),
    {
        match self.iln_contract {
            Some(iln) => {
                if inv.require_auth(iln) {
                    Ok(iln)
                } else {
                    Err(Rejection::NotAuthorized(iln))
                }
            },
            None => Err(Rejection::Contract(DistributionError::NotInitialized)),
        }
    }
}

} // verus!
