use iln_contracts::host::Address;
use iln_contracts::reputation_events::{
    emit_config_set, emit_initialized, emit_invoice_status_changed, emit_invoice_submitted,
    emit_parameter_updated, status_topic, BonusEvent, ConfigSet, ContractInitialized, Invoice,
    InvoiceStatus, InvoiceStatusChanged, InvoiceSubmitted, ParameterUpdated, PARAM_BONUS_BPS,
};

fn invoice(status: InvoiceStatus) -> Invoice {
    Invoice {
        id: 12,
        freelancer: Address(1),
        payer: Address(2),
        amount: 5_000,
        due_date: 77,
        effective_discount_rate_bps: 250,
        status,
    }
}

#[test]
fn events_are_recorded_in_order() {
    let mut log = Vec::new();
    emit_initialized(&mut log, Address(9));
    emit_config_set(&mut log, 80, 100, 50);
    emit_parameter_updated(&mut log, PARAM_BONUS_BPS, 100, 150, Address(9));
    emit_invoice_submitted(&mut log, &invoice(InvoiceStatus::Pending));
    emit_invoice_status_changed(&mut log, &invoice(InvoiceStatus::Paid));
    assert_eq!(
        log,
        vec![
            BonusEvent::Initialized(ContractInitialized { admin: Address(9) }),
            BonusEvent::ConfigSet(ConfigSet { high_rep_threshold: 80, bonus_bps: 100, min_discount_rate_bps: 50 }),
            BonusEvent::ParameterUpdated(ParameterUpdated {
                param_name: "bonus_bps".to_string(),
                old_value: 100,
                new_value: 150,
                updated_by: Address(9),
            }),
            BonusEvent::InvoiceSubmitted(InvoiceSubmitted {
                invoice_id: 12,
                freelancer: Address(1),
                payer: Address(2),
                amount: 5_000,
                due_date: 77,
                effective_discount_rate_bps: 250,
            }),
            BonusEvent::InvoiceStatusChanged {
                topic: "paid",
                event: InvoiceStatusChanged {
                    invoice_id: 12,
                    freelancer: Address(1),
                    payer: Address(2),
                    status: InvoiceStatus::Paid,
                },
            },
        ]
    );
}

#[test]
fn status_topics_name_the_status() {
    assert_eq!(status_topic(InvoiceStatus::Paid), "paid");
    assert_eq!(status_topic(InvoiceStatus::Defaulted), "defaulted");
    assert_eq!(status_topic(InvoiceStatus::Pending), "pending");
    assert_eq!(status_topic(InvoiceStatus::Funded), "funded");
}
