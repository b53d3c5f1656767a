use iln_contracts::access::{
    check_rate_limit, clear_rate_limit, lock_reentrancy, require_admin, require_governance,
    require_lp, require_lp_by_id, require_payer_by_id, require_submitter, require_submitter_by_id,
    unlock_reentrancy, Role,
};
use iln_contracts::constants::DEFAULT_RATE_LIMIT_LEDGERS;
use iln_contracts::errors::ContractError;
use iln_contracts::host::{Address, Invocation, Rejection};
use iln_contracts::invoice::{Invoice, InvoiceStatus};
use iln_contracts::storage::{save_invoice, save_invoice_funders, set_admin, Store};

#[test]
fn test_role_variants() {
    assert_eq!(Role::Submitter, Role::Submitter);
    assert_eq!(Role::Payer, Role::Payer);
    assert_eq!(Role::LP, Role::LP);
    assert_eq!(Role::Admin, Role::Admin);
    assert_eq!(Role::Governance, Role::Governance);
    assert_eq!(Role::Anyone, Role::Anyone);
    assert_ne!(Role::Submitter, Role::Payer);
}

#[test]
fn test_access_reentrancy_and_rate_limits() {
    let mut store = Store::new();

    // lock_reentrancy and unlock
    assert_eq!(lock_reentrancy(&mut store), Ok(()));
    assert_eq!(lock_reentrancy(&mut store), Err(ContractError::Reentrancy));
    unlock_reentrancy(&mut store);
    assert_eq!(lock_reentrancy(&mut store), Ok(()));
    unlock_reentrancy(&mut store);

    // rate limiting
    let ledger = Invocation::mocked(0, 100);

    assert_eq!(check_rate_limit(&mut store, &ledger, "test_fn", 10), Ok(()));
    assert_eq!(
        check_rate_limit(&mut store, &ledger, "test_fn", 10),
        Err(ContractError::RateLimited)
    );

    clear_rate_limit(&mut store, "test_fn");
    assert_eq!(check_rate_limit(&mut store, &ledger, "test_fn", 10), Ok(()));

    let ledger = Invocation::mocked(0, 100 + 15);
    assert_eq!(check_rate_limit(&mut store, &ledger, "test_fn", 10), Ok(()));

    // governance
    assert_eq!(require_governance(&store), Err(ContractError::Unauthorized));
}

// ── Further behaviour of the guards ─────────────────────────────────────────

fn invoice(id: u64, freelancer: Address, payer: Address) -> Invoice {
    Invoice {
        id,
        freelancer,
        payer,
        token: Address(99),
        amount: 1_000,
        due_date: 10,
        discount_rate: 300,
        status: InvoiceStatus::Pending,
        funder: None,
        funded_at: None,
        amount_funded: 0,
        amount_paid: 0,
        submitter_reputation: 50,
    }
}

#[test]
fn rate_limits_are_per_function_and_end_after_cooldown() {
    let mut store = Store::new();
    let at = |seq: u32| Invocation::mocked(0, seq);
    assert_eq!(check_rate_limit(&mut store, &at(5_000), "set_admin", 720), Ok(()));
    assert_eq!(check_rate_limit(&mut store, &at(5_000), "upgrade", 1440), Ok(()));
    assert_eq!(
        check_rate_limit(&mut store, &at(5_719), "set_admin", 720),
        Err(ContractError::RateLimited)
    );
    assert_eq!(check_rate_limit(&mut store, &at(5_720), "set_admin", 720), Ok(()));
    assert_eq!(
        check_rate_limit(&mut store, &at(6_000), "upgrade", 1440),
        Err(ContractError::RateLimited)
    );
    // A first call below the cooldown counted from ledger 0 is refused.
    assert_eq!(
        check_rate_limit(&mut store, &at(50), "fresh", DEFAULT_RATE_LIMIT_LEDGERS),
        Err(ContractError::RateLimited)
    );
    // Clearing an unknown name is harmless.
    clear_rate_limit(&mut store, "never_called");
    assert_eq!(store.rate_limits.len(), 2);
}

#[test]
fn admin_guard() {
    let mut store = Store::new();
    let signed = |who: Vec<Address>| Invocation::signed_by(0, 0, who);
    assert_eq!(
        require_admin(&store, &signed(vec![])),
        Err(Rejection::Contract(ContractError::Unauthorized))
    );
    set_admin(&mut store, Address(1));
    assert_eq!(require_admin(&store, &signed(vec![Address(2)])), Err(Rejection::NotAuthorized(Address(1))));
    assert_eq!(require_admin(&store, &signed(vec![Address(2), Address(1)])), Ok(()));
}

#[test]
fn submitter_payer_and_lp_guards() {
    let mut store = Store::new();
    let freelancer = Address(1);
    let payer = Address(2);
    let lp = Address(3);
    let signed = |who: Vec<Address>| Invocation::signed_by(0, 0, who);

    assert_eq!(require_submitter(&signed(vec![freelancer]), freelancer), Ok(()));
    assert_eq!(require_lp(&signed(vec![]), lp), Err(Rejection::NotAuthorized(lp)));

    assert_eq!(
        require_submitter_by_id(&store, &signed(vec![freelancer]), freelancer, 7),
        Err(Rejection::Contract(ContractError::InvoiceNotFound))
    );
    save_invoice(&mut store, &invoice(7, freelancer, payer));
    assert_eq!(require_submitter_by_id(&store, &signed(vec![freelancer]), freelancer, 7), Ok(()));
    assert_eq!(
        require_submitter_by_id(&store, &signed(vec![payer]), payer, 7),
        Err(Rejection::Contract(ContractError::Unauthorized))
    );
    assert_eq!(
        require_submitter_by_id(&store, &signed(vec![]), freelancer, 7),
        Err(Rejection::NotAuthorized(freelancer))
    );

    assert_eq!(require_payer_by_id(&store, &signed(vec![payer]), 7), Ok(()));
    assert_eq!(require_payer_by_id(&store, &signed(vec![lp]), 7), Err(Rejection::NotAuthorized(payer)));

    assert_eq!(
        require_lp_by_id(&store, &signed(vec![lp]), lp, 7),
        Err(Rejection::Contract(ContractError::Unauthorized))
    );
    save_invoice_funders(&mut store, 7, &vec![(Address(4), 10), (lp, 990)]);
    assert_eq!(require_lp_by_id(&store, &signed(vec![lp]), lp, 7), Ok(()));
    assert_eq!(
        require_lp_by_id(&store, &signed(vec![lp]), lp, 8),
        Err(Rejection::Contract(ContractError::InvoiceNotFound))
    );
}
