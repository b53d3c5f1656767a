//! Storage of the liquidity contract: configuration, invoices, funders,
//! reputation scores, funding queues, appeals and protocol statistics.

use std::collections::HashMap;
use vstd::prelude::*;

use crate::constants::{
    DEFAULT_LP_SCORE, DEFAULT_PAYER_SCORE, MAX_REPUTATION_DECAY_PERIODS, MAX_SCORE,
};
use crate::errors::ContractError;
use crate::host::{get_or, Address, Invocation};
use crate::invoice::{AppealRecord, Config, Invoice, LpFundRequest, ReputationScore};

verus! {

broadcast use vstd::std_specs::hash::group_hash_axioms;

/// The ledger at which a rate-limited function was last called, keyed by the
/// function's name.
pub struct RateLimit {
    pub name: String,
    pub last_ledger: u32,
}

/// The liquidity contract's storage.
pub struct Store {
    // Instance storage.
    pub admin: Option<Address>,
    pub config: Option<Config>,
    pub paused: Option<bool>,
    pub next_invoice_id: Option<u64>,
    /// Reentrancy guard.
    pub reentrancy_lock: Option<bool>,
    /// Last call of each rate-limited function; no name occurs twice.
    pub rate_limits: Vec<RateLimit>,
    // Persistent storage, keyed by invoice id or by address.
    pub invoices: HashMap<u64, Invoice>,
    pub invoice_funders: HashMap<u64, Vec<(Address, i128)>>,
    pub payer_scores: HashMap<u64, ReputationScore>,
    pub lp_scores: HashMap<u64, u32>,
    pub fund_queues: HashMap<u64, Vec<LpFundRequest>>,
    pub queue_resolutions: HashMap<u64, Address>,
    pub appeals: HashMap<u64, AppealRecord>,
    pub pre_default_payer_scores: HashMap<u64, u32>,
    pub total_invoices: Option<u64>,
    pub total_funded: Option<u64>,
    pub total_paid: Option<u64>,
}

/// The abstract contents of a [`Store`].
#[verifier::ext_equal]
pub struct StoreModel {
    pub admin: Option<Address>,
    pub config: Option<Config>,
    pub paused: Option<bool>,
    pub next_invoice_id: Option<u64>,
    pub reentrancy_lock: Option<bool>,
    /// Last call ledger per rate-limited function name.
    pub rate_limits: Map<Seq<char>, u32>,
    pub invoices: Map<u64, Invoice>,
    pub invoice_funders: Map<u64, Seq<(Address, i128)>>,
    pub payer_scores: Map<u64, ReputationScore>,
    pub lp_scores: Map<u64, u32>,
    pub fund_queues: Map<u64, Seq<LpFundRequest>>,
    pub queue_resolutions: Map<u64, Address>,
    pub appeals: Map<u64, AppealRecord>,
    pub pre_default_payer_scores: Map<u64, u32>,
    pub total_invoices: Option<u64>,
    pub total_funded: Option<u64>,
    pub total_paid: Option<u64>,
}

/// Some entry of `s` is named `name`.
pub open spec fn has_rate_limit(s: Seq<RateLimit>, name: Seq<char>) -> bool {
    exists|i: int| 0 <= i < s.len() && (#[trigger] s[i]).name@ == name
}

/// The rate-limit records of `s` as a map from name to last call ledger.
pub open spec fn rate_limit_map(s: Seq<RateLimit>) -> Map<Seq<char>, u32> {
    Map::new(
        |name: Seq<char>| has_rate_limit(s, name),
        |name: Seq<char>|
            s[choose|i: int| 0 <= i < s.len() && (#[trigger] s[i]).name@ == name].last_ledger,
    )
}

/// No two entries of `s` share a name.
pub open spec fn names_unique(s: Seq<RateLimit>) -> bool {
    forall|i: int, j: int|
        0 <= i < s.len() && 0 <= j < s.len() && i != j ==> (#[trigger] s[i]).name@ != (
        #[trigger] s[j]).name@
}

impl View for Store {
    type V = StoreModel;

    open spec fn view(&self) -> StoreModel {
        StoreModel {
            admin: self.admin,
            config: self.config,
            paused: self.paused,
            next_invoice_id: self.next_invoice_id,
            reentrancy_lock: self.reentrancy_lock,
            rate_limits: rate_limit_map(self.rate_limits@),
            invoices: self.invoices@,
            invoice_funders: self.invoice_funders@.map_values(|v: Vec<(Address, i128)>| v@),
            payer_scores: self.payer_scores@,
            lp_scores: self.lp_scores@,
            fund_queues: self.fund_queues@.map_values(|v: Vec<LpFundRequest>| v@),
            queue_resolutions: self.queue_resolutions@,
            appeals: self.appeals@,
            pre_default_payer_scores: self.pre_default_payer_scores@,
            total_invoices: self.total_invoices,
            total_funded: self.total_funded,
            total_paid: self.total_paid,
        }
    }
}

impl Store {
    /// The rate-limit records name each function at most once.
    pub open spec fn wf(&self) -> bool {
        names_unique(self.rate_limits@)
    }

    /// Empty storage.
    pub fn new() -> (s: Store)
        ensures
            s.wf(),
            s@ == (StoreModel {
                admin: None,
                config: None,
                paused: None,
                next_invoice_id: None,
                reentrancy_lock: None,
                rate_limits: Map::empty(),
                invoices: Map::empty(),
                invoice_funders: Map::empty(),
                payer_scores: Map::empty(),
                lp_scores: Map::empty(),
                fund_queues: Map::empty(),
                queue_resolutions: Map::empty(),
                appeals: Map::empty(),
                pre_default_payer_scores: Map::empty(),
                total_invoices: None,
                total_funded: None,
                total_paid: None,
            }),
    {
        let s = Store {
            admin: None,
            config: None,
            paused: None,
            next_invoice_id: None,
            reentrancy_lock: None,
            rate_limits: Vec::new(),
            invoices: HashMap::new(),
            invoice_funders: HashMap::new(),
            payer_scores: HashMap::new(),
            lp_scores: HashMap::new(),
            fund_queues: HashMap::new(),
            queue_resolutions: HashMap::new(),
            appeals: HashMap::new(),
            pre_default_payer_scores: HashMap::new(),
            total_invoices: None,
            total_funded: None,
            total_paid: None,
        };
        assert(s@.rate_limits =~= Map::empty());
        assert(s@.invoice_funders =~= Map::empty());
        assert(s@.fund_queues =~= Map::empty());
        s
    }
}

/// A copy of `v`.
fn copy_vec<T: Copy>(v: &Vec<T>) -> (r: Vec<T>)
    ensures
        r@ == v@,
{
    let mut r: Vec<T> = Vec::new();
    let n = v.len();
    let mut i: usize = 0;
    while i < n
        invariant
            n == v@.len(),
            i <= n,
            r@ == v@.subrange(0, i as int),
        decreases n - i,
    {
        r.push(v[i]);
        i = i + 1;
        assert(r@ =~= v@.subrange(0, i as int));
    }
    assert(r@ =~= v@);
    r
}

// ----------------------------------------------------------------
// Config
// ----------------------------------------------------------------

pub fn get_admin(store: &Store) -> (r: Option<Address>)
    ensures
        r == store@.admin,
{
    store.admin
}

pub fn set_admin(store: &mut Store, admin: Address)
    ensures
        final(store)@ == (StoreModel { admin: Some(admin), ..old(store)@ }),
        final(store).rate_limits@ == old(store).rate_limits@,
{
    store.admin = Some(admin);
}

pub fn get_config(store: &Store) -> (r: Option<Config>)
    ensures
        r == store@.config,
{
    store.config
}

pub fn set_config(store: &mut Store, config: Config)
    ensures
        final(store)@ == (StoreModel { config: Some(config), ..old(store)@ }),
        final(store).rate_limits@ == old(store).rate_limits@,
{
    store.config = Some(config);
}

/// Whether the contract is paused (not paused unless set).
pub fn is_paused(store: &Store) -> (r: bool)
    ensures
        r == store@.paused.unwrap_or(false),
{
    match store.paused {
        Some(p) => p,
        None => false,
    }
}

pub fn set_paused(store: &mut Store, paused: bool)
    ensures
        final(store)@ == (StoreModel { paused: Some(paused), ..old(store)@ }),
        final(store).rate_limits@ == old(store).rate_limits@,
{
    store.paused = Some(paused);
}

// ----------------------------------------------------------------
// Invoices
// ----------------------------------------------------------------

/// Store `invoice` under its id, replacing any invoice stored there.
pub fn save_invoice(store: &mut Store, invoice: &Invoice)
    ensures
        final(store)@ == old(store)@.with_invoice(*invoice),
        final(store).rate_limits@ == old(store).rate_limits@,
{
    store.invoices.insert(invoice.id, *invoice);
}

/// The invoice stored under `id`, which must exist.
pub fn load_invoice(store: &Store, id: u64) -> (r: Invoice)
    requires
        store@.invoices.contains_key(id),
    ensures
        r == store@.invoices[id],
{
    match store.invoices.get(&id) {
        Some(inv) => *inv,
        None => vstd::pervasive::unreached(),
    }
}

pub fn invoice_exists(store: &Store, id: u64) -> (r: bool)
    ensures
        r == store@.invoices.contains_key(id),
{
    store.invoices.contains_key(&id)
}

/// The id the next invoice will get (ids start at 1).
pub fn read_next_invoice_id(store: &Store) -> (r: u64)
    ensures
        r == store@.next_invoice_id.unwrap_or(1),
{
    match store.next_invoice_id {
        Some(id) => id,
        None => 1,
    }
}

pub fn write_next_invoice_id(store: &mut Store, id: u64)
    ensures
        final(store)@ == (StoreModel { next_invoice_id: Some(id), ..old(store)@ }),
        final(store).rate_limits@ == old(store).rate_limits@,
{
    store.next_invoice_id = Some(id);
}

/// The effect of allocating an invoice id on storage, and the id (or
/// `ArithmeticOverflow` once the counter is exhausted).
pub open spec fn next_invoice_id_spec(m: StoreModel) -> (StoreModel, Result<u64, ContractError>) {
    let current = m.next_invoice_id.unwrap_or(1);
    if current == u64::MAX {
        (m, Err(ContractError::ArithmeticOverflow))
    } else {
        (StoreModel { next_invoice_id: Some((current + 1) as u64), ..m }, Ok(current))
    }
}

/// Allocate an invoice id: returns the next id and advances the counter,
/// or fails with `ArithmeticOverflow` when the counter is exhausted.
pub fn next_invoice_id(store: &mut Store) -> (r: Result<u64, ContractError>)
    ensures
        (final(store)@, r) == next_invoice_id_spec(old(store)@),
        final(store).rate_limits@ == old(store).rate_limits@,
{
    let current_id = read_next_invoice_id(store);
    let next_id = match current_id.checked_add(1) {
        Some(n) => n,
        None => return Err(ContractError::ArithmeticOverflow),
    };
    write_next_invoice_id(store, next_id);
    Ok(current_id)
}

/// Invoice ids are handed out in order without repetition: ids start at 1,
/// and each allocation returns one more than the previous one.
pub proof fn law_invoice_ids_consecutive(m: StoreModel)
    requires
        next_invoice_id_spec(m).1 is Ok,
        next_invoice_id_spec(next_invoice_id_spec(m).0).1 is Ok,
    ensures
        next_invoice_id_spec(next_invoice_id_spec(m).0).1.unwrap() == next_invoice_id_spec(m).1.unwrap()
            + 1,
        m.next_invoice_id is None ==> next_invoice_id_spec(m).1.unwrap() == 1,
{
}

// ----------------------------------------------------------------
// Funders
// ----------------------------------------------------------------

/// The funders of invoice `id` with the amount each funded (empty if none).
pub fn get_invoice_funders(store: &Store, id: u64) -> (r: Vec<(Address, i128)>)
    ensures
        r@ == get_or(store@.invoice_funders, id, Seq::empty()),
{
    match store.invoice_funders.get(&id) {
        Some(v) => copy_vec(v),
        None => Vec::new(),
    }
}

pub fn save_invoice_funders(store: &mut Store, id: u64, funders: &Vec<(Address, i128)>)
    ensures
        final(store)@ == (StoreModel {
            invoice_funders: old(store)@.invoice_funders.insert(id, funders@),
            ..old(store)@
        }),
        final(store).rate_limits@ == old(store).rate_limits@,
{
    store.invoice_funders.insert(id, copy_vec(funders));
    assert(store@.invoice_funders =~= old(store)@.invoice_funders.insert(id, funders@));
}

// ----------------------------------------------------------------
// Reputation
// ----------------------------------------------------------------

/// A score after one decay period at `bps` basis points: it loses
/// `score * bps / 10_000`, but never drops below zero.
pub open spec fn decay_once(score: u64, bps: u64) -> u64 {
    let loss = (score * bps) / 10_000;
    if loss > score {
        0
    } else {
        (score - loss) as u64
    }
}

/// A score after `n` decay periods.
pub open spec fn decay_steps(score: u64, bps: u64, n: nat) -> u64
    decreases n,
{
    if n == 0 {
        score
    } else {
        decay_once(decay_steps(score, bps, (n - 1) as nat), bps)
    }
}

/// The score a stored reputation record reads as at ledger `sequence`: a
/// configured decay applies once a whole period of inactivity has passed,
/// one step per elapsed period, capped at the maximum score; past
/// `MAX_REPUTATION_DECAY_PERIODS` periods the score is zero.
pub open spec fn decayed_score(rep: ReputationScore, config: Option<Config>, sequence: u32) -> u32 {
    match config {
        None => rep.score,
        Some(cfg) => {
            let since: u64 = if sequence >= rep.last_activity_ledger {
                (sequence - rep.last_activity_ledger) as u64
            } else {
                0
            };
            if since >= cfg.decay_period_ledgers && cfg.decay_period_ledgers > 0
                && cfg.decay_rate_bps > 0 {
                let periods = since / cfg.decay_period_ledgers;
                if periods > MAX_REPUTATION_DECAY_PERIODS {
                    0
                } else {
                    let d = decay_steps(rep.score as u64, cfg.decay_rate_bps as u64, periods as nat);
                    if d < MAX_SCORE {
                        d as u32
                    } else {
                        MAX_SCORE
                    }
                }
            } else {
                rep.score
            }
        },
    }
}

impl StoreModel {
    /// A payer's score at ledger `sequence` (the default for unknown payers).
    pub open spec fn payer_score_at(self, sequence: u32, payer: Address) -> u32 {
        if self.payer_scores.contains_key(payer.key()) {
            decayed_score(self.payer_scores[payer.key()], self.config, sequence)
        } else {
            DEFAULT_PAYER_SCORE
        }
    }

    /// An LP's score (the default for unknown LPs).
    pub open spec fn lp_score(self, lp: Address) -> u32 {
        get_or(self.lp_scores, lp.key(), DEFAULT_LP_SCORE)
    }

    pub open spec fn total_of(counter: Option<u64>) -> u64 {
        counter.unwrap_or(0)
    }

    /// Storage after `invoice` is saved under its id.
    pub open spec fn with_invoice(self, invoice: Invoice) -> StoreModel {
        StoreModel { invoices: self.invoices.insert(invoice.id, invoice), ..self }
    }

    /// Storage after `payer`'s score is set to `score` at ledger `sequence`.
    pub open spec fn with_payer_score(self, sequence: u32, payer: Address, score: u32) -> StoreModel {
        StoreModel {
            payer_scores: self.payer_scores.insert(
                payer.key(),
                ReputationScore { score: capped(score), last_activity_ledger: sequence },
            ),
            ..self
        }
    }

    /// Storage after `lp`'s score is set to `score`.
    pub open spec fn with_lp_score(self, lp: Address, score: u32) -> StoreModel {
        StoreModel { lp_scores: self.lp_scores.insert(lp.key(), capped(score)), ..self }
    }
}

/// `min(score, MAX_SCORE)`.
pub open spec fn capped(score: u32) -> u32 {
    if score < MAX_SCORE {
        score
    } else {
        MAX_SCORE
    }
}

proof fn lemma_decay_steps_bounded(score: u64, bps: u64, n: nat)
    ensures
        decay_steps(score, bps, n) <= score,
    decreases n,
{
    if n > 0 {
        lemma_decay_steps_bounded(score, bps, (n - 1) as nat);
    }
}

/// A payer's reputation score at the current ledger, after inactivity decay.
pub fn get_payer_score(store: &Store, inv: &Invocation, payer: Address) -> (r: u32)
    ensures
        r == store@.payer_score_at(inv.sequence, payer),
{
    let rep = match store.payer_scores.get(&payer.0) {
        Some(rep) => *rep,
        None => return DEFAULT_PAYER_SCORE,
    };
    let decay_config = match store.config {
        Some(c) => c,
        None => return rep.score,
    };
    let current_ledger = inv.sequence as u64;
    let ledgers_since_activity = current_ledger.saturating_sub(rep.last_activity_ledger as u64);
    if ledgers_since_activity >= decay_config.decay_period_ledgers
        && decay_config.decay_period_ledgers > 0 && decay_config.decay_rate_bps > 0 {
        let periods_passed = ledgers_since_activity / decay_config.decay_period_ledgers;
        if periods_passed > MAX_REPUTATION_DECAY_PERIODS {
            return 0;
        }
        let bps = decay_config.decay_rate_bps as u64;
        let start = rep.score as u64;
        let mut decayed_score: u64 = start;
        let mut i: u64 = 0;
        while i < periods_passed
            invariant
                i <= periods_passed,
                start <= u32::MAX,
                bps <= u32::MAX,
                decayed_score == decay_steps(start, bps, i as nat),
            decreases periods_passed - i,
        {
            proof {
                lemma_decay_steps_bounded(start, bps, i as nat);
                assert(decayed_score * bps <= u32::MAX * u32::MAX) by (nonlinear_arith)
                    requires
                        decayed_score <= u32::MAX,
                        bps <= u32::MAX,
                ;
            }
            let decay_amount = (decayed_score * bps) / 10_000;
            decayed_score = decayed_score.saturating_sub(decay_amount);
            i = i + 1;
        }
        if decayed_score < MAX_SCORE as u64 {
            decayed_score as u32
        } else {
            MAX_SCORE
        }
    } else {
        rep.score
    }
}

/// Set a payer's score (capped at the maximum) and mark the payer active at
/// the current ledger.
pub fn set_payer_score(store: &mut Store, inv: &Invocation, payer: Address, score: u32)
    ensures
        final(store)@ == old(store)@.with_payer_score(inv.sequence, payer, score),
        final(store).rate_limits@ == old(store).rate_limits@,
{
    let score = if score < MAX_SCORE {
        score
    } else {
        MAX_SCORE
    };
    let rep = ReputationScore { score, last_activity_ledger: inv.sequence };
    store.payer_scores.insert(payer.0, rep);
}

/// An LP's reputation score (the default when none is recorded).
pub fn get_lp_score(store: &Store, lp: Address) -> (r: u32)
    ensures
        r == store@.lp_score(lp),
{
    match store.lp_scores.get(&lp.0) {
        Some(s) => *s,
        None => DEFAULT_LP_SCORE,
    }
}

/// Set an LP's score, capped at the maximum.
pub fn set_lp_score(store: &mut Store, lp: Address, score: u32)
    ensures
        final(store)@ == old(store)@.with_lp_score(lp, score),
        final(store).rate_limits@ == old(store).rate_limits@,
{
    let score = if score < MAX_SCORE {
        score
    } else {
        MAX_SCORE
    };
    store.lp_scores.insert(lp.0, score);
}

// ----------------------------------------------------------------
// Funding queues
// ----------------------------------------------------------------

/// The funding queue of an invoice (empty if none).
pub fn get_fund_queue(store: &Store, invoice_id: u64) -> (r: Vec<LpFundRequest>)
    ensures
        r@ == get_or(store@.fund_queues, invoice_id, Seq::empty()),
{
    match store.fund_queues.get(&invoice_id) {
        Some(v) => copy_vec(v),
        None => Vec::new(),
    }
}

pub fn save_fund_queue(store: &mut Store, invoice_id: u64, queue: &Vec<LpFundRequest>)
    ensures
        final(store)@ == (StoreModel {
            fund_queues: old(store)@.fund_queues.insert(invoice_id, queue@),
            ..old(store)@
        }),
        final(store).rate_limits@ == old(store).rate_limits@,
{
    store.fund_queues.insert(invoice_id, copy_vec(queue));
    assert(store@.fund_queues =~= old(store)@.fund_queues.insert(invoice_id, queue@));
}

/// The LP the queue of an invoice resolved to, if it has been resolved.
pub fn get_queue_resolution(store: &Store, invoice_id: u64) -> (r: Option<Address>)
    ensures
        r == (if store@.queue_resolutions.contains_key(invoice_id) {
            Some(store@.queue_resolutions[invoice_id])
        } else {
            None
        }),
{
    match store.queue_resolutions.get(&invoice_id) {
        Some(a) => Some(*a),
        None => None,
    }
}

pub fn save_queue_resolution(store: &mut Store, invoice_id: u64, approved_lp: Address)
    ensures
        final(store)@ == (StoreModel {
            queue_resolutions: old(store)@.queue_resolutions.insert(invoice_id, approved_lp),
            ..old(store)@
        }),
        final(store).rate_limits@ == old(store).rate_limits@,
{
    store.queue_resolutions.insert(invoice_id, approved_lp);
}

// ----------------------------------------------------------------
// Appeals
// ----------------------------------------------------------------

pub fn get_appeal(store: &Store, invoice_id: u64) -> (r: Option<AppealRecord>)
    ensures
        r == (if store@.appeals.contains_key(invoice_id) {
            Some(store@.appeals[invoice_id])
        } else {
            None
        }),
{
    match store.appeals.get(&invoice_id) {
        Some(a) => Some(*a),
        None => None,
    }
}

pub fn save_appeal(store: &mut Store, invoice_id: u64, record: &AppealRecord)
    ensures
        final(store)@ == (StoreModel {
            appeals: old(store)@.appeals.insert(invoice_id, *record),
            ..old(store)@
        }),
        final(store).rate_limits@ == old(store).rate_limits@,
{
    store.appeals.insert(invoice_id, *record);
}

/// Remember the payer's score before an invoice defaulted, so an upheld
/// appeal can restore it.
pub fn save_pre_default_payer_score(store: &mut Store, invoice_id: u64, score: u32)
    ensures
        final(store)@ == (StoreModel {
            pre_default_payer_scores: old(store)@.pre_default_payer_scores.insert(invoice_id, score),
            ..old(store)@
        }),
        final(store).rate_limits@ == old(store).rate_limits@,
{
    store.pre_default_payer_scores.insert(invoice_id, score);
}

pub fn get_pre_default_payer_score(store: &Store, invoice_id: u64) -> (r: Option<u32>)
    ensures
        r == (if store@.pre_default_payer_scores.contains_key(invoice_id) {
            Some(store@.pre_default_payer_scores[invoice_id])
        } else {
            None
        }),
{
    match store.pre_default_payer_scores.get(&invoice_id) {
        Some(s) => Some(*s),
        None => None,
    }
}

// ----------------------------------------------------------------
// Protocol statistics
// ----------------------------------------------------------------

/// `n + 1`, saturating at `i64::MAX`.
pub open spec fn sat_succ_i64(n: i64) -> i64 {
    if n == i64::MAX {
        n
    } else {
        (n + 1) as i64
    }
}

/// `a + b`, saturating at `u64::MAX`.
pub open spec fn sat_add_u64(a: u64, b: u64) -> u64 {
    if a + b > u64::MAX {
        u64::MAX
    } else {
        (a + b) as u64
    }
}

/// A statistics counter after one increment.
pub open spec fn counter_incremented(counter: Option<u64>) -> Option<u64> {
    Some(sat_add_u64(counter.unwrap_or(0), 1))
}

/// A statistics counter after committing an accumulated `delta`: positive
/// deltas are added (saturating), others leave the counter untouched.
pub open spec fn counter_committed(counter: Option<u64>, delta: i64) -> Option<u64> {
    if delta > 0 {
        Some(sat_add_u64(counter.unwrap_or(0), delta as u64))
    } else {
        counter
    }
}

/// A statistics counter after `n` increments.
pub open spec fn counter_incremented_n(counter: Option<u64>, n: nat) -> Option<u64>
    decreases n,
{
    if n == 0 {
        counter
    } else {
        counter_incremented(counter_incremented_n(counter, (n - 1) as nat))
    }
}

/// In-memory accumulator of statistics changes, committed to storage with
/// one write per counter.
#[derive(Clone, Copy, Debug, PartialEq, Eq, Structural)]
pub struct StatsAccumulator {
    pub invoices_delta: i64,
    pub funded_delta: i64,
    pub paid_delta: i64,
}

impl StatsAccumulator {
    /// An accumulator with nothing recorded.
    pub fn new() -> (a: StatsAccumulator)
        ensures
            a == (StatsAccumulator { invoices_delta: 0, funded_delta: 0, paid_delta: 0 }),
    {
        StatsAccumulator { invoices_delta: 0, funded_delta: 0, paid_delta: 0 }
    }

    /// Record one submitted invoice.
    pub fn add_invoice(&mut self)
        ensures
            *final(self) == (StatsAccumulator {
                invoices_delta: sat_succ_i64(old(self).invoices_delta),
                ..*old(self)
            }),
    {
        if self.invoices_delta < i64::MAX {
            self.invoices_delta = self.invoices_delta + 1;
        }
    }

    /// Record one funded invoice.
    pub fn add_funded(&mut self)
        ensures
            *final(self) == (StatsAccumulator {
                funded_delta: sat_succ_i64(old(self).funded_delta),
                ..*old(self)
            }),
    {
        if self.funded_delta < i64::MAX {
            self.funded_delta = self.funded_delta + 1;
        }
    }

    /// Record one paid invoice.
    pub fn add_paid(&mut self)
        ensures
            *final(self) == (StatsAccumulator {
                paid_delta: sat_succ_i64(old(self).paid_delta),
                ..*old(self)
            }),
    {
        if self.paid_delta < i64::MAX {
            self.paid_delta = self.paid_delta + 1;
        }
    }

    /// Add the accumulated changes to the stored counters.
    pub fn commit(self, store: &mut Store)
        ensures
            final(store)@ == (StoreModel {
                total_invoices: counter_committed(old(store)@.total_invoices, self.invoices_delta),
                total_funded: counter_committed(old(store)@.total_funded, self.funded_delta),
                total_paid: counter_committed(old(store)@.total_paid, self.paid_delta),
                ..old(store)@
            }),
            final(store).rate_limits@ == old(store).rate_limits@,
    {
        if self.invoices_delta > 0 {
            let current = get_total_invoices(store);
            store.total_invoices = Some(current.saturating_add(self.invoices_delta as u64));
        }
        if self.funded_delta > 0 {
            let current = get_total_funded(store);
            store.total_funded = Some(current.saturating_add(self.funded_delta as u64));
        }
        if self.paid_delta > 0 {
            let current = get_total_paid(store);
            store.total_paid = Some(current.saturating_add(self.paid_delta as u64));
        }
    }
}

pub fn increment_total_invoices(store: &mut Store)
    ensures
        final(store)@ == (StoreModel {
            total_invoices: counter_incremented(old(store)@.total_invoices),
            ..old(store)@
        }),
        final(store).rate_limits@ == old(store).rate_limits@,
{
    let current = get_total_invoices(store);
    store.total_invoices = Some(current.saturating_add(1));
}

pub fn increment_total_funded(store: &mut Store)
    ensures
        final(store)@ == (StoreModel {
            total_funded: counter_incremented(old(store)@.total_funded),
            ..old(store)@
        }),
        final(store).rate_limits@ == old(store).rate_limits@,
{
    let current = get_total_funded(store);
    store.total_funded = Some(current.saturating_add(1));
}

pub fn increment_total_paid(store: &mut Store)
    ensures
        final(store)@ == (StoreModel {
            total_paid: counter_incremented(old(store)@.total_paid),
            ..old(store)@
        }),
        final(store).rate_limits@ == old(store).rate_limits@,
{
    let current = get_total_paid(store);
    store.total_paid = Some(current.saturating_add(1));
}

/// Total invoices submitted.
pub fn get_total_invoices(store: &Store) -> (r: u64)
    ensures
        r == store@.total_invoices.unwrap_or(0),
{
    match store.total_invoices {
        Some(n) => n,
        None => 0,
    }
}

/// Total invoices funded.
pub fn get_total_funded(store: &Store) -> (r: u64)
    ensures
        r == store@.total_funded.unwrap_or(0),
{
    match store.total_funded {
        Some(n) => n,
        None => 0,
    }
}

/// Total invoices paid.
pub fn get_total_paid(store: &Store) -> (r: u64)
    ensures
        r == store@.total_paid.unwrap_or(0),
{
    match store.total_paid {
        Some(n) => n,
        None => 0,
    }
}

/// `n` increments of a counter add `n`, saturating at `u64::MAX`.
proof fn lemma_increments_add(counter: Option<u64>, n: nat)
    ensures
        counter_incremented_n(counter, n) == (if n == 0 {
            counter
        } else {
            Some(
                if counter.unwrap_or(0) + n > u64::MAX {
                    u64::MAX
                } else {
                    (counter.unwrap_or(0) + n) as u64
                },
            )
        }),
    decreases n,
{
    if n > 0 {
        lemma_increments_add(counter, (n - 1) as nat);
    }
}

/// An accumulator after `n` recorded invoices, starting from `new()`.
pub open spec fn invoices_added(n: nat) -> StatsAccumulator
    decreases n,
{
    if n == 0 {
        StatsAccumulator { invoices_delta: 0, funded_delta: 0, paid_delta: 0 }
    } else {
        let a = invoices_added((n - 1) as nat);
        StatsAccumulator { invoices_delta: sat_succ_i64(a.invoices_delta), ..a }
    }
}

proof fn lemma_invoices_added(n: nat)
    requires
        n <= i64::MAX,
    ensures
        invoices_added(n) == (StatsAccumulator { invoices_delta: n as i64, funded_delta: 0, paid_delta: 0 }),
    decreases n,
{
    if n > 0 {
        lemma_invoices_added((n - 1) as nat);
    }
}

/// Batching is transparent: recording `n` invoices in a fresh accumulator
/// and committing it leaves the total-invoices counter where `n` calls of
/// `increment_total_invoices` would (for any `n` up to `i64::MAX`). The same
/// holds of the funded and paid counters, whose deltas behave alike.
pub proof fn law_commit_matches_increments(counter: Option<u64>, n: nat)
    requires
        n <= i64::MAX,
    ensures
        counter_committed(counter, invoices_added(n).invoices_delta) == counter_incremented_n(
            counter,
            n,
        ),
        forall|d: i64|
            0 <= d ==> #[trigger] counter_committed(counter, d) == counter_incremented_n(
                counter,
                d as nat,
            ),
{
    lemma_invoices_added(n);
    lemma_increments_add(counter, n);
    assert forall|d: i64| 0 <= d implies #[trigger] counter_committed(counter, d)
        == counter_incremented_n(counter, d as nat) by {
        lemma_increments_add(counter, d as nat);
    }
}


/// A payer score written at some ledger reads back at that ledger as
/// written, capped at 100; other payers' scores are unaffected; a payer
/// with no record reads as 50.
pub proof fn law_payer_score_reads_back(
    m: StoreModel,
    sequence: u32,
    payer: Address,
    score: u32,
    other: Address,
)
    requires
        other != payer,
    ensures
        score <= 100 ==> m.with_payer_score(sequence, payer, score).payer_score_at(sequence, payer)
            == score,
        score > 100 ==> m.with_payer_score(sequence, payer, score).payer_score_at(sequence, payer)
            == 100,
        m.with_payer_score(sequence, payer, score).payer_score_at(sequence, other)
            == m.payer_score_at(sequence, other),
        !m.payer_scores.contains_key(payer.key()) ==> m.payer_score_at(sequence, payer) == 50,
{
}

/// An LP score reads back as written, capped at 100; other LPs' scores are
/// unaffected; an LP with no record reads as 50.
pub proof fn law_lp_score_reads_back(m: StoreModel, lp: Address, score: u32, other: Address)
    requires
        other != lp,
    ensures
        score <= 100 ==> m.with_lp_score(lp, score).lp_score(lp) == score,
        score > 100 ==> m.with_lp_score(lp, score).lp_score(lp) == 100,
        m.with_lp_score(lp, score).lp_score(other) == m.lp_score(other),
        !m.lp_scores.contains_key(lp.key()) ==> m.lp_score(lp) == 50,
{
}

/// A saved invoice reads back as saved, replacing any invoice with its id
/// and leaving every other invoice as it was.
pub proof fn law_invoice_reads_back(m: StoreModel, invoice: Invoice, other_id: u64)
    requires
        other_id != invoice.id,
    ensures
        m.with_invoice(invoice).invoices.contains_key(invoice.id),
        m.with_invoice(invoice).invoices[invoice.id] == invoice,
        m.with_invoice(invoice).invoices.contains_key(other_id) == m.invoices.contains_key(other_id),
        m.invoices.contains_key(other_id) ==> m.with_invoice(invoice).invoices[other_id]
            == m.invoices[other_id],
{
}

/// A payer score decays once per whole period of inactivity: with a
/// configured period `P > 0` and rate `bps` in `1..=10_000`, a score `s`
/// (at most 100) written at ledger `L` reads as `s` before `L + P`, and as
/// `s - s * bps / 10_000` from `L + P` until `L + 2P`.
pub proof fn law_payer_score_decays_per_period(
    m: StoreModel,
    written_at: u32,
    payer: Address,
    score: u32,
    read_at: u32,
)
    requires
        m.config matches Some(cfg) && cfg.decay_period_ledgers > 0 && 0 < cfg.decay_rate_bps
            <= 10_000,
        score <= 100,
        written_at <= read_at,
    ensures
        ({
            let cfg = m.config.unwrap();
            let p = cfg.decay_period_ledgers;
            let bps = cfg.decay_rate_bps;
            let m2 = m.with_payer_score(written_at, payer, score);
            &&& read_at - written_at < p ==> m2.payer_score_at(read_at, payer) == score
            &&& p <= read_at - written_at < 2 * p ==> m2.payer_score_at(read_at, payer) == score
                - (score * bps) / 10_000
        }),
{
    let cfg = m.config.unwrap();
    let p = cfg.decay_period_ledgers;
    let bps = cfg.decay_rate_bps as u64;
    let s = score as u64;
    let since = (read_at - written_at) as u64;
    if p <= since < 2 * p {
        assert(since / p == 1) by (nonlinear_arith)
            requires
                p <= since < 2 * p,
                p > 0,
        ;
        assert((s * bps) / 10_000 <= s) by (nonlinear_arith)
            requires
                bps <= 10_000,
        ;
        assert(decay_steps(s, bps, 1) == decay_once(decay_steps(s, bps, 0), bps));
        assert(decay_steps(s, bps, 1) == s - (s * bps) / 10_000);
    }
}

/// A statistics counter counts: one increment adds one (a missing counter
/// reads as zero), saturating at `u64::MAX`; committing a positive delta
/// adds it, and a non-positive delta changes nothing.
pub proof fn law_counters_count(counter: Option<u64>, delta: i64)
    ensures
        counter.unwrap_or(0) < u64::MAX ==> counter_incremented(counter) == Some(
            (counter.unwrap_or(0) + 1) as u64,
        ),
        counter.unwrap_or(0) == u64::MAX ==> counter_incremented(counter) == Some(u64::MAX),
        counter is None ==> counter_incremented(counter) == Some(1u64),
        delta > 0 && counter.unwrap_or(0) + delta <= u64::MAX ==> counter_committed(counter, delta)
            == Some((counter.unwrap_or(0) + delta) as u64),
        delta <= 0 ==> counter_committed(counter, delta) == counter,
{
}

/// Allocating an invoice id fails only when the counter is exhausted, and
/// then changes nothing; otherwise the counter moves past the returned id.
pub proof fn law_invoice_id_allocation(m: StoreModel)
    ensures
        m.next_invoice_id == Some(u64::MAX) ==> next_invoice_id_spec(m) == (m, Err::<
            u64,
            ContractError,
        >(ContractError::ArithmeticOverflow)),
        m.next_invoice_id != Some(u64::MAX) ==> next_invoice_id_spec(m).1 == Ok::<u64, ContractError>(
            m.next_invoice_id.unwrap_or(1),
        ) && next_invoice_id_spec(m).0.next_invoice_id == Some(
            (m.next_invoice_id.unwrap_or(1) + 1) as u64,
        ),
{
}

proof fn lemma_decay_steps_antitone(score: u64, bps: u64, a: nat, b: nat)
    requires
        a <= b,
    ensures
        decay_steps(score, bps, b) <= decay_steps(score, bps, a),
    decreases b - a,
{
    if a < b {
        lemma_decay_steps_antitone(score, bps, a, (b - 1) as nat);
    }
}

/// A reputation score never grows by waiting: for a record holding at most
/// the maximum score, the score read at a later ledger is never above the
/// score read at an earlier one, nor above the stored score.
pub proof fn law_payer_score_decays_over_time(
    rep: ReputationScore,
    config: Option<Config>,
    s1: u32,
    s2: u32,
)
    requires
        rep.score <= MAX_SCORE,
        s1 <= s2,
    ensures
        decayed_score(rep, config, s2) <= decayed_score(rep, config, s1),
        decayed_score(rep, config, s1) <= rep.score,
{
    if let Some(cfg) = config {
        let since1: u64 = if s1 >= rep.last_activity_ledger {
            (s1 - rep.last_activity_ledger) as u64
        } else {
            0
        };
        let since2: u64 = if s2 >= rep.last_activity_ledger {
            (s2 - rep.last_activity_ledger) as u64
        } else {
            0
        };
        assert(since1 <= since2);
        if cfg.decay_period_ledgers > 0 {
            let p1 = since1 / cfg.decay_period_ledgers;
            let p2 = since2 / cfg.decay_period_ledgers;
            assert(p1 <= p2) by (nonlinear_arith)
                requires
                    since1 <= since2,
                    cfg.decay_period_ledgers > 0,
                    p1 == since1 / cfg.decay_period_ledgers,
                    p2 == since2 / cfg.decay_period_ledgers,
            ;
            lemma_decay_steps_antitone(rep.score as u64, cfg.decay_rate_bps as u64, p1 as nat, p2 as nat);
            lemma_decay_steps_antitone(rep.score as u64, cfg.decay_rate_bps as u64, 0, p1 as nat);
            lemma_decay_steps_antitone(rep.score as u64, cfg.decay_rate_bps as u64, 0, p2 as nat);
        }
    }
}

} // verus!
