//! Access guards of the liquidity contract: role checks, the reentrancy
//! lock and per-function rate limits.

use vstd::prelude::*;

use crate::errors::ContractError;
use crate::host::{get_or, Address, Invocation, Rejection};
use crate::storage::{
    get_invoice_funders, has_rate_limit, invoice_exists, load_invoice, names_unique,
    rate_limit_map, RateLimit, Store, StoreModel,
};

verus! {

/// The roles that the contract's operations are gated on.
#[derive(Clone, Copy, Debug, PartialEq, Eq, Structural)]
pub enum Role {
    Submitter,
    Payer,
    LP,
    Admin,
    Governance,
    Anyone,
}

/// Succeeds when the admin is configured and signed the call; an unset
/// admin is `Unauthorized`.
pub fn require_admin(store: &Store, inv: &Invocation) -> (r: Result<(), Rejection<ContractError>>)
    ensures
        r == (match store@.admin {
            None => Err(Rejection::Contract(ContractError::Unauthorized)),
            Some(a) => if inv.authorizes(a) {
                Ok(())
            } else {
                Err(Rejection::NotAuthorized(a))
            },
        }),
{
    let admin = match store.admin {
        Some(a) => a,
        None => return Err(Rejection::Contract(ContractError::Unauthorized)),
    };
    if !inv.require_auth(admin) {
        return Err(Rejection::NotAuthorized(admin));
    }
    Ok(())
}

/// Succeeds when `caller` signed the call.
pub fn require_submitter(inv: &Invocation, caller: Address) -> (r: Result<
    (),
    Rejection<ContractError>,
>)
    ensures
        r == (if inv.authorizes(caller) {
            Ok(())
        } else {
            Err(Rejection::<ContractError>::NotAuthorized(caller))
        }),
{
    if !inv.require_auth(caller) {
        return Err(Rejection::NotAuthorized(caller));
    }
    Ok(())
}

/// Succeeds when invoice `invoice_id` exists, `caller` signed the call, and
/// `caller` is the invoice's freelancer.
pub fn require_submitter_by_id(store: &Store, inv: &Invocation, caller: Address, invoice_id: u64) -> (r:
    Result<(), Rejection<ContractError>>)
    ensures
        r == (if !store@.invoices.contains_key(invoice_id) {
            Err(Rejection::Contract(ContractError::InvoiceNotFound))
        } else if !inv.authorizes(caller) {
            Err(Rejection::NotAuthorized(caller))
        } else if caller != store@.invoices[invoice_id].freelancer {
            Err(Rejection::Contract(ContractError::Unauthorized))
        } else {
            Ok(())
        }),
{
    if !invoice_exists(store, invoice_id) {
        return Err(Rejection::Contract(ContractError::InvoiceNotFound));
    }
    let invoice = load_invoice(store, invoice_id);
    if !inv.require_auth(caller) {
        return Err(Rejection::NotAuthorized(caller));
    }
    if caller != invoice.freelancer {
        return Err(Rejection::Contract(ContractError::Unauthorized));
    }
    Ok(())
}

/// Succeeds when invoice `invoice_id` exists and its payer signed the call.
pub fn require_payer_by_id(store: &Store, inv: &Invocation, invoice_id: u64) -> (r: Result<
    (),
    Rejection<ContractError>,
>)
    ensures
        r == (if !store@.invoices.contains_key(invoice_id) {
            Err(Rejection::Contract(ContractError::InvoiceNotFound))
        } else if !inv.authorizes(store@.invoices[invoice_id].payer) {
            Err(Rejection::NotAuthorized(store@.invoices[invoice_id].payer))
        } else {
            Ok(())
        }),
{
    if !invoice_exists(store, invoice_id) {
        return Err(Rejection::Contract(ContractError::InvoiceNotFound));
    }
    let invoice = load_invoice(store, invoice_id);
    if !inv.require_auth(invoice.payer) {
        return Err(Rejection::NotAuthorized(invoice.payer));
    }
    Ok(())
}

/// Succeeds when `caller` signed the call.
pub fn require_lp(inv: &Invocation, caller: Address) -> (r: Result<(), Rejection<ContractError>>)
    ensures
        r == (if inv.authorizes(caller) {
            Ok(())
        } else {
            Err(Rejection::<ContractError>::NotAuthorized(caller))
        }),
{
    if !inv.require_auth(caller) {
        return Err(Rejection::NotAuthorized(caller));
    }
    Ok(())
}

/// `who` is among `funders`.
pub open spec fn is_funder(funders: Seq<(Address, i128)>, who: Address) -> bool {
    exists|i: int| 0 <= i < funders.len() && (#[trigger] funders[i]).0 == who
}

/// Succeeds when invoice `invoice_id` exists, `caller` signed the call, and
/// `caller` funded the invoice.
pub fn require_lp_by_id(store: &Store, inv: &Invocation, caller: Address, invoice_id: u64) -> (r:
    Result<(), Rejection<ContractError>>)
    ensures
        r == (if !store@.invoices.contains_key(invoice_id) {
            Err(Rejection::Contract(ContractError::InvoiceNotFound))
        } else if !inv.authorizes(caller) {
            Err(Rejection::NotAuthorized(caller))
        } else if !is_funder(get_or(store@.invoice_funders, invoice_id, Seq::empty()), caller) {
            Err(Rejection::Contract(ContractError::Unauthorized))
        } else {
            Ok(())
        }),
{
    if !invoice_exists(store, invoice_id) {
        return Err(Rejection::Contract(ContractError::InvoiceNotFound));
    }
    if !inv.require_auth(caller) {
        return Err(Rejection::NotAuthorized(caller));
    }
    let funders = get_invoice_funders(store, invoice_id);
    let n = funders.len();
    let mut i: usize = 0;
    while i < n
        invariant
            n == funders@.len(),
            i <= n,
            funders@ == get_or(store@.invoice_funders, invoice_id, Seq::empty()),
            store@.invoices.contains_key(invoice_id),
            inv.authorizes(caller),
            forall|j: int| 0 <= j < i ==> (#[trigger] funders@[j]).0 != caller,
        decreases n - i,
    {
        if funders[i].0 == caller {
            assert(is_funder(funders@, caller)) by {
                assert(funders@[i as int].0 == caller);
            }
            return Ok(());
        }
        i = i + 1;
    }
    Err(Rejection::Contract(ContractError::Unauthorized))
}

/// Governance is not implemented: always `Unauthorized`.
pub fn require_governance(_store: &Store) -> (r: Result<(), ContractError>)
    ensures
        r == Err::<(), ContractError>(ContractError::Unauthorized),
{
    Err(ContractError::Unauthorized)
}

// ----------------------------------------------------------------
// Reentrancy guard
// ----------------------------------------------------------------

/// The effect of `lock_reentrancy` on storage and its result.
pub open spec fn lock_spec(m: StoreModel) -> (StoreModel, Result<(), ContractError>) {
    if m.reentrancy_lock.unwrap_or(false) {
        (m, Err(ContractError::Reentrancy))
    } else {
        (StoreModel { reentrancy_lock: Some(true), ..m }, Ok(()))
    }
}

/// The effect of `unlock_reentrancy` on storage.
pub open spec fn unlock_spec(m: StoreModel) -> StoreModel {
    StoreModel { reentrancy_lock: Some(false), ..m }
}

/// Take the reentrancy lock, or fail with `Reentrancy` if it is held.
pub fn lock_reentrancy(store: &mut Store) -> (r: Result<(), ContractError>)
    ensures
        (final(store)@, r) == lock_spec(old(store)@),
        final(store).rate_limits@ == old(store).rate_limits@,
{
    let locked = match store.reentrancy_lock {
        Some(l) => l,
        None => false,
    };
    if locked {
        return Err(ContractError::Reentrancy);
    }
    store.reentrancy_lock = Some(true);
    Ok(())
}

/// Release the reentrancy lock.
pub fn unlock_reentrancy(store: &mut Store)
    ensures
        final(store)@ == unlock_spec(old(store)@),
        final(store).rate_limits@ == old(store).rate_limits@,
{
    store.reentrancy_lock = Some(false);
}

/// The lock admits one holder: taking it twice fails with `Reentrancy`
/// until it is released, after which it can be taken again.
pub proof fn law_reentrancy_lock(m: StoreModel)
    requires
        !m.reentrancy_lock.unwrap_or(false),
    ensures
        lock_spec(m).1 == Ok::<(), ContractError>(()),
        lock_spec(lock_spec(m).0).1 == Err::<(), ContractError>(ContractError::Reentrancy),
        lock_spec(lock_spec(m).0).0 == lock_spec(m).0,
        lock_spec(unlock_spec(lock_spec(m).0)).1 == Ok::<(), ContractError>(()),
        lock_spec(unlock_spec(m)).1 == Ok::<(), ContractError>(()),
{
}

// ----------------------------------------------------------------
// Rate limiting
// ----------------------------------------------------------------

/// `c` may appear in a symbol.
pub open spec fn is_symbol_char(c: char) -> bool {
    ||| ('a' <= c && c <= 'z')
    ||| ('A' <= c && c <= 'Z')
    ||| ('0' <= c && c <= '9')
    ||| c == '_'
}

/// `s` is a valid symbol: at most 32 characters from `a-zA-Z0-9_`.
pub open spec fn is_valid_symbol(s: Seq<char>) -> bool {
    s.len() <= 32 && forall|i: int| 0 <= i < s.len() ==> is_symbol_char(#[trigger] s[i])
}

/// `a + b`, saturating at `u32::MAX`.
pub open spec fn sat_add_u32(a: u32, b: u32) -> u32 {
    if a + b > u32::MAX {
        u32::MAX
    } else {
        (a + b) as u32
    }
}

/// The ledger before which `name` is still cooling down: its last call plus
/// the cooldown (truncated to 32 bits), saturating.
pub open spec fn cooldown_end(m: StoreModel, name: Seq<char>, cooldown_ledgers: u64) -> u32 {
    sat_add_u32(get_or_name(m.rate_limits, name), cooldown_ledgers as u32)
}

/// The last call ledger recorded for `name`, or 0.
pub open spec fn get_or_name(m: Map<Seq<char>, u32>, name: Seq<char>) -> u32 {
    if m.contains_key(name) {
        m[name]
    } else {
        0
    }
}

/// The effect of `check_rate_limit` on storage and its result.
pub open spec fn rate_limit_spec(
    m: StoreModel,
    sequence: u32,
    name: Seq<char>,
    cooldown_ledgers: u64,
) -> (StoreModel, Result<(), ContractError>) {
    if sequence < cooldown_end(m, name, cooldown_ledgers) {
        (m, Err(ContractError::RateLimited))
    } else {
        (StoreModel { rate_limits: m.rate_limits.insert(name, sequence), ..m }, Ok(()))
    }
}

proof fn lemma_rate_limit_lookup(s: Seq<RateLimit>, i: int)
    requires
        names_unique(s),
        0 <= i < s.len(),
    ensures
        rate_limit_map(s).contains_key(s[i].name@),
        rate_limit_map(s)[s[i].name@] == s[i].last_ledger,
{
    assert(has_rate_limit(s, s[i].name@));
    let j = choose|j: int| 0 <= j < s.len() && (#[trigger] s[j]).name@ == s[i].name@;
    assert(j == i);
}

proof fn lemma_rate_limit_update(s: Seq<RateLimit>, i: int, e: RateLimit)
    requires
        names_unique(s),
        0 <= i < s.len(),
        s[i].name@ == e.name@,
    ensures
        names_unique(s.update(i, e)),
        rate_limit_map(s.update(i, e)) =~= rate_limit_map(s).insert(e.name@, e.last_ledger),
{
    let t = s.update(i, e);
    assert forall|a: int, b: int|
        0 <= a < t.len() && 0 <= b < t.len() && a != b implies (#[trigger] t[a]).name@ != (
        #[trigger] t[b]).name@ by {
        assert(t[a].name@ == s[a].name@);
        assert(t[b].name@ == s[b].name@);
    }
    assert forall|name: Seq<char>| #[trigger]
        rate_limit_map(t).contains_key(name) <==> rate_limit_map(s).insert(
            e.name@,
            e.last_ledger,
        ).contains_key(name) by {
        if has_rate_limit(t, name) {
            let j = choose|j: int| 0 <= j < t.len() && (#[trigger] t[j]).name@ == name;
            assert(s[j].name@ == name);
        }
        if has_rate_limit(s, name) {
            let j = choose|j: int| 0 <= j < s.len() && (#[trigger] s[j]).name@ == name;
            assert(t[j].name@ == name);
        }
    }
    assert forall|name: Seq<char>| #[trigger] rate_limit_map(t).contains_key(name) implies rate_limit_map(
        t,
    )[name] == rate_limit_map(s).insert(e.name@, e.last_ledger)[name] by {
        let j = choose|j: int| 0 <= j < t.len() && (#[trigger] t[j]).name@ == name;
        lemma_rate_limit_lookup(t, j);
        if j != i {
            assert(s[j].name@ == name);
            lemma_rate_limit_lookup(s, j);
        }
    }
}

proof fn lemma_rate_limit_push(s: Seq<RateLimit>, e: RateLimit)
    requires
        names_unique(s),
        !has_rate_limit(s, e.name@),
    ensures
        names_unique(s.push(e)),
        rate_limit_map(s.push(e)) =~= rate_limit_map(s).insert(e.name@, e.last_ledger),
{
    let t = s.push(e);
    assert forall|a: int, b: int|
        0 <= a < t.len() && 0 <= b < t.len() && a != b implies (#[trigger] t[a]).name@ != (
        #[trigger] t[b]).name@ by {
        if a < s.len() && b < s.len() {
            assert(t[a] == s[a]);
            assert(t[b] == s[b]);
        } else if a < s.len() {
            assert(t[a] == s[a]);
        } else {
            assert(t[b] == s[b]);
        }
    }
    assert forall|name: Seq<char>| #[trigger]
        rate_limit_map(t).contains_key(name) <==> rate_limit_map(s).insert(
            e.name@,
            e.last_ledger,
        ).contains_key(name) by {
        if has_rate_limit(t, name) && name != e.name@ {
            let j = choose|j: int| 0 <= j < t.len() && (#[trigger] t[j]).name@ == name;
            assert(j < s.len());
            assert(s[j].name@ == name);
        }
        if has_rate_limit(s, name) {
            let j = choose|j: int| 0 <= j < s.len() && (#[trigger] s[j]).name@ == name;
            assert(t[j].name@ == name);
        }
        if name == e.name@ {
            assert(t[s.len() as int].name@ == name);
        }
    }
    assert forall|name: Seq<char>| #[trigger] rate_limit_map(t).contains_key(name) implies rate_limit_map(
        t,
    )[name] == rate_limit_map(s).insert(e.name@, e.last_ledger)[name] by {
        let j = choose|j: int| 0 <= j < t.len() && (#[trigger] t[j]).name@ == name;
        lemma_rate_limit_lookup(t, j);
        if j < s.len() {
            assert(s[j] == t[j]);
            lemma_rate_limit_lookup(s, j);
        }
    }
}

proof fn lemma_rate_limit_remove(s: Seq<RateLimit>, i: int)
    requires
        names_unique(s),
        0 <= i < s.len(),
    ensures
        names_unique(s.remove(i)),
        rate_limit_map(s.remove(i)) =~= rate_limit_map(s).remove(s[i].name@),
{
    let t = s.remove(i);
    assert forall|a: int, b: int|
        0 <= a < t.len() && 0 <= b < t.len() && a != b implies (#[trigger] t[a]).name@ != (
        #[trigger] t[b]).name@ by {
        let sa = if a < i { a } else { a + 1 };
        let sb = if b < i { b } else { b + 1 };
        assert(t[a] == s[sa]);
        assert(t[b] == s[sb]);
    }
    assert forall|name: Seq<char>| #[trigger]
        rate_limit_map(t).contains_key(name) <==> rate_limit_map(s).remove(
            s[i].name@,
        ).contains_key(name) by {
        if has_rate_limit(t, name) {
            let j = choose|j: int| 0 <= j < t.len() && (#[trigger] t[j]).name@ == name;
            let sj = if j < i { j } else { j + 1 };
            assert(t[j] == s[sj]);
            assert(s[sj].name@ == name);
        }
        if has_rate_limit(s, name) && name != s[i].name@ {
            let j = choose|j: int| 0 <= j < s.len() && (#[trigger] s[j]).name@ == name;
            assert(j != i);
            let tj = if j < i { j } else { j - 1 };
            assert(t[tj] == s[j]);
        }
    }
    assert forall|name: Seq<char>| #[trigger] rate_limit_map(t).contains_key(name) implies rate_limit_map(
        t,
    )[name] == rate_limit_map(s).remove(s[i].name@)[name] by {
        let j = choose|j: int| 0 <= j < t.len() && (#[trigger] t[j]).name@ == name;
        lemma_rate_limit_lookup(t, j);
        let sj = if j < i { j } else { j + 1 };
        assert(t[j] == s[sj]);
        lemma_rate_limit_lookup(s, sj);
    }
}

/// The position of the record named `name`, if any.
fn find_rate_limit(records: &Vec<RateLimit>, name: &String) -> (r: Option<usize>)
    ensures
        match r {
            Some(i) => i < records@.len() && records@[i as int].name@ == name@,
            None => !has_rate_limit(records@, name@),
        },
{
    let n = records.len();
    let mut i: usize = 0;
    while i < n
        invariant
            n == records@.len(),
            i <= n,
            forall|j: int| 0 <= j < i ==> (#[trigger] records@[j]).name@ != name@,
        decreases n - i,
    {
        if records[i].name == *name {
            return Some(i);
        }
        i = i + 1;
    }
    None
}

/// Let `fn_name` through when its cooldown has elapsed since its last
/// recorded call, and record the current ledger as its last call; otherwise
/// fail with `RateLimited` and record nothing.
pub fn check_rate_limit(store: &mut Store, inv: &Invocation, fn_name: &str, cooldown_ledgers: u64) -> (r:
    Result<(), ContractError>)
    requires
        old(store).wf(),
        is_valid_symbol(fn_name@),
    ensures
        final(store).wf(),
        (final(store)@, r) == rate_limit_spec(old(store)@, inv.sequence, fn_name@, cooldown_ledgers),
{
    let key = fn_name.to_owned();
    let found = find_rate_limit(&store.rate_limits, &key);
    let last_ledger: u32 = match found {
        Some(i) => {
            proof {
                lemma_rate_limit_lookup(store.rate_limits@, i as int);
            }
            store.rate_limits[i].last_ledger
        },
        None => 0,
    };
    let current_ledger = inv.sequence;
    if current_ledger < last_ledger.saturating_add(cooldown_ledgers as u32) {
        return Err(ContractError::RateLimited);
    }
    let entry = RateLimit { name: key, last_ledger: current_ledger };
    match found {
        Some(i) => {
            proof {
                lemma_rate_limit_update(store.rate_limits@, i as int, entry);
            }
            store.rate_limits.set(i, entry);
        },
        None => {
            proof {
                lemma_rate_limit_push(store.rate_limits@, entry);
            }
            store.rate_limits.push(entry);
        },
    }
    Ok(())
}

/// Forget the last call of `fn_name`.
pub fn clear_rate_limit(store: &mut Store, fn_name: &str)
    requires
        old(store).wf(),
        is_valid_symbol(fn_name@),
    ensures
        final(store).wf(),
        final(store)@ == (StoreModel {
            rate_limits: old(store)@.rate_limits.remove(fn_name@),
            ..old(store)@
        }),
{
    let key = fn_name.to_owned();
    match find_rate_limit(&store.rate_limits, &key) {
        Some(i) => {
            proof {
                lemma_rate_limit_remove(store.rate_limits@, i as int);
            }
            store.rate_limits.remove(i);
        },
        None => {
            assert(old(store)@.rate_limits.remove(fn_name@) =~= old(store)@.rate_limits);
        },
    }
}

/// A rate-limited function can be called once per cooldown: after a call is
/// let through at ledger `s1`, a call at `s2` is refused exactly when `s2`
/// falls before `s1` plus the cooldown (truncated to 32 bits, saturating).
pub proof fn law_rate_limit_cooldown(
    m: StoreModel,
    s1: u32,
    s2: u32,
    name: Seq<char>,
    cooldown_ledgers: u64,
)
    requires
        rate_limit_spec(m, s1, name, cooldown_ledgers).1 is Ok,
    ensures
        ({
            let m2 = rate_limit_spec(m, s1, name, cooldown_ledgers).0;
            let r2 = rate_limit_spec(m2, s2, name, cooldown_ledgers).1;
            &&& s2 < sat_add_u32(s1, cooldown_ledgers as u32) ==> r2 == Err::<(), ContractError>(
                ContractError::RateLimited,
            )
            &&& s2 >= sat_add_u32(s1, cooldown_ledgers as u32) ==> r2 is Ok
        }),
{
}

/// Clearing a rate limit lets the next call through as if the function had
/// never been called: it is refused only before the cooldown measured from
/// ledger 0.
pub proof fn law_cleared_rate_limit(m: StoreModel, s: u32, name: Seq<char>, cooldown_ledgers: u64)
    ensures
        ({
            let m2 = StoreModel { rate_limits: m.rate_limits.remove(name), ..m };
            rate_limit_spec(m2, s, name, cooldown_ledgers).1 is Ok <==> s >= (cooldown_ledgers as u32)
        }),
{
}

/// Within the range of ledger numbers, a function let through at ledger `s1`
/// is refused at `s2` exactly when `s2 < s1 + cooldown_ledgers`; a function
/// with no recorded call is let through from ledger `cooldown_ledgers` on.
pub proof fn law_rate_limit_window(
    m: StoreModel,
    s1: u32,
    s2: u32,
    name: Seq<char>,
    cooldown_ledgers: u64,
)
    requires
        rate_limit_spec(m, s1, name, cooldown_ledgers).1 is Ok,
        s1 + cooldown_ledgers <= u32::MAX,
    ensures
        rate_limit_spec(rate_limit_spec(m, s1, name, cooldown_ledgers).0, s2, name, cooldown_ledgers).1
            is Ok <==> s2 >= s1 + cooldown_ledgers,
        rate_limit_spec(m, s1, name, cooldown_ledgers).0.rate_limits[name] == s1,
        !m.rate_limits.contains_key(name) ==> (rate_limit_spec(m, s2, name, cooldown_ledgers).1 is Ok
            <==> s2 >= cooldown_ledgers),
        rate_limit_spec(m, s2, name, cooldown_ledgers).1 is Err ==> rate_limit_spec(
            m,
            s2,
            name,
            cooldown_ledgers,
        ).0 == m,
{
    assert(cooldown_ledgers as u32 == cooldown_ledgers);
}

} // verus!
