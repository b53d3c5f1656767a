use iln_contracts::constants::MAX_REPUTATION_DECAY_PERIODS;
use iln_contracts::errors::ContractError;
use iln_contracts::host::{Address, Invocation};
use iln_contracts::invoice::{AppealRecord, Config, Invoice, InvoiceStatus, LpFundRequest};
use iln_contracts::storage::{
    get_appeal, get_config, get_fund_queue, get_invoice_funders, get_lp_score, get_payer_score,
    get_pre_default_payer_score, get_queue_resolution, get_total_funded, get_total_invoices,
    get_total_paid, increment_total_funded, increment_total_invoices, increment_total_paid,
    invoice_exists, is_paused, load_invoice, next_invoice_id, read_next_invoice_id, save_appeal,
    save_fund_queue, save_invoice, save_invoice_funders, save_pre_default_payer_score,
    save_queue_resolution, set_config, set_lp_score, set_paused, set_payer_score,
    write_next_invoice_id, StatsAccumulator, Store,
};

fn at(seq: u32) -> Invocation {
    Invocation::mocked(0, seq)
}

#[test]
fn payer_score_defaults_caps_and_decays() {
    let mut store = Store::new();
    let payer = Address(5);
    assert_eq!(get_payer_score(&store, &at(0), payer), 50);

    set_payer_score(&mut store, &at(100), payer, 250);
    assert_eq!(get_payer_score(&store, &at(100), payer), 100);

    // No decay without a configuration.
    set_payer_score(&mut store, &at(100), payer, 80);
    assert_eq!(get_payer_score(&store, &at(1_000_000), payer), 80);

    // 10% per 100 ledgers: 80 -> 72 -> 65 after two whole periods.
    set_config(&mut store, Config { decay_period_ledgers: 100, decay_rate_bps: 1_000 });
    assert_eq!(get_payer_score(&store, &at(199), payer), 80);
    assert_eq!(get_payer_score(&store, &at(200), payer), 72);
    assert_eq!(get_payer_score(&store, &at(350), payer), 65);
    // A ledger before the last activity counts as no time passed.
    assert_eq!(get_payer_score(&store, &at(10), payer), 80);
    // Past the decay horizon the score reads as zero.
    let beyond = 100 + 100 * (MAX_REPUTATION_DECAY_PERIODS as u32 + 1);
    assert_eq!(get_payer_score(&store, &at(beyond), payer), 0);
}

#[test]
fn tiny_decay_rates_round_to_nothing() {
    let mut store = Store::new();
    let payer = Address(5);
    set_payer_score(&mut store, &at(0), payer, 50);
    set_config(&mut store, Config { decay_period_ledgers: 10, decay_rate_bps: 1 });
    assert_eq!(get_payer_score(&store, &at(10_000), payer), 50);
    // A rate above 100% empties the score in one period.
    set_config(&mut store, Config { decay_period_ledgers: 10, decay_rate_bps: 20_000 });
    assert_eq!(get_payer_score(&store, &at(10), payer), 0);
    assert_eq!(get_config(&store), Some(Config { decay_period_ledgers: 10, decay_rate_bps: 20_000 }));
}

#[test]
fn lp_scores_default_and_cap() {
    let mut store = Store::new();
    assert_eq!(get_lp_score(&store, Address(1)), 50);
    set_lp_score(&mut store, Address(1), 101);
    assert_eq!(get_lp_score(&store, Address(1)), 100);
    set_lp_score(&mut store, Address(1), 7);
    assert_eq!(get_lp_score(&store, Address(1)), 7);
}

#[test]
fn invoice_ids_start_at_one_and_stop_at_the_end() {
    let mut store = Store::new();
    assert_eq!(read_next_invoice_id(&store), 1);
    assert_eq!(next_invoice_id(&mut store), Ok(1));
    assert_eq!(next_invoice_id(&mut store), Ok(2));
    assert_eq!(read_next_invoice_id(&store), 3);
    write_next_invoice_id(&mut store, u64::MAX);
    assert_eq!(next_invoice_id(&mut store), Err(ContractError::ArithmeticOverflow));
    assert_eq!(read_next_invoice_id(&store), u64::MAX);
}

#[test]
fn invoices_funders_queues_and_appeals_round_trip() {
    let mut store = Store::new();
    let inv = Invoice {
        id: 3,
        freelancer: Address(1),
        payer: Address(2),
        token: Address(3),
        amount: 1_000_000,
        due_date: 1_234_567_890,
        discount_rate: 300,
        status: InvoiceStatus::Funded,
        funder: Some(Address(4)),
        funded_at: Some(1_234_567_800),
        amount_funded: 1_000_000,
        amount_paid: 0,
        submitter_reputation: 50,
    };
    assert!(!invoice_exists(&store, 3));
    save_invoice(&mut store, &inv);
    assert!(invoice_exists(&store, 3));
    assert_eq!(load_invoice(&store, 3), inv);

    assert_eq!(get_invoice_funders(&store, 3), vec![]);
    save_invoice_funders(&mut store, 3, &vec![(Address(4), 600), (Address(5), 400)]);
    assert_eq!(get_invoice_funders(&store, 3), vec![(Address(4), 600), (Address(5), 400)]);

    let queue = vec![LpFundRequest { lp: Address(6), score: 70 }, LpFundRequest { lp: Address(7), score: 40 }];
    save_fund_queue(&mut store, 3, &queue);
    assert_eq!(get_fund_queue(&store, 3), queue);
    assert_eq!(get_fund_queue(&store, 4), vec![]);

    assert_eq!(get_queue_resolution(&store, 3), None);
    save_queue_resolution(&mut store, 3, Address(6));
    assert_eq!(get_queue_resolution(&store, 3), Some(Address(6)));

    let appeal = AppealRecord { payer: Address(2), evidence: [7u8; 32], appealed_at: 99 };
    assert_eq!(get_appeal(&store, 3), None);
    save_appeal(&mut store, 3, &appeal);
    assert_eq!(get_appeal(&store, 3), Some(appeal));

    assert_eq!(get_pre_default_payer_score(&store, 3), None);
    save_pre_default_payer_score(&mut store, 3, 64);
    assert_eq!(get_pre_default_payer_score(&store, 3), Some(64));

    assert!(!is_paused(&store));
    set_paused(&mut store, true);
    assert!(is_paused(&store));
}

#[test]
fn stats_accumulator_matches_single_increments() {
    let mut batched = Store::new();
    let mut single = Store::new();
    let mut acc = StatsAccumulator::new();
    for _ in 0..3 {
        acc.add_invoice();
        increment_total_invoices(&mut single);
    }
    acc.add_funded();
    increment_total_funded(&mut single);
    acc.commit(&mut batched);
    assert_eq!(get_total_invoices(&batched), 3);
    assert_eq!(get_total_funded(&batched), 1);
    assert_eq!(get_total_paid(&batched), 0);
    assert_eq!(batched.total_paid, None); // untouched counters are not written
    assert_eq!(get_total_invoices(&single), 3);
    assert_eq!(get_total_funded(&single), 1);

    increment_total_paid(&mut single);
    assert_eq!(get_total_paid(&single), 1);
}

#[test]
fn stats_saturate() {
    let mut store = Store::new();
    store.total_invoices = Some(u64::MAX - 1);
    let mut acc = StatsAccumulator::new();
    acc.add_invoice();
    acc.add_invoice();
    acc.commit(&mut store);
    assert_eq!(get_total_invoices(&store), u64::MAX);
    increment_total_invoices(&mut store);
    assert_eq!(get_total_invoices(&store), u64::MAX);

    let mut acc = StatsAccumulator { invoices_delta: i64::MAX, funded_delta: 0, paid_delta: -3 };
    acc.add_invoice();
    assert_eq!(acc.invoices_delta, i64::MAX);
    acc.add_paid();
    assert_eq!(acc.paid_delta, -2);
}
