//! Events of the reputation-bonus contract.

use vstd::prelude::*;

use crate::access::is_valid_symbol;
use crate::host::Address;

verus! {

/// Stable audit identifier of the high-reputation threshold parameter.
pub const PARAM_HIGH_REP_THRESHOLD: &'static str = "high_rep_threshold";

/// Stable audit identifier of the bonus parameter.
pub const PARAM_BONUS_BPS: &'static str = "bonus_bps";

/// Stable audit identifier of the minimum discount rate parameter.
pub const PARAM_MIN_DISCOUNT_RATE_BPS: &'static str = "min_discount_rate_bps";

/// Lifecycle state of an invoice in the reputation-bonus contract.
#[derive(Clone, Copy, Debug, PartialEq, Eq, Structural)]
pub enum InvoiceStatus {
    Pending,
    Funded,
    Paid,
    Defaulted,
}

/// An invoice as the reputation-bonus contract records it.
#[derive(Clone, Copy, Debug, PartialEq, Eq, Structural)]
pub struct Invoice {
    pub id: u64,
    pub freelancer: Address,
    pub payer: Address,
    pub amount: i128,
    pub due_date: u64,
    pub effective_discount_rate_bps: u32,
    pub status: InvoiceStatus,
}

/// A governance-controlled parameter changed.
#[derive(Clone, Debug, PartialEq, Eq)]
pub struct ParameterUpdated {
    pub param_name: String,
    pub old_value: i128,
    pub new_value: i128,
    pub updated_by: Address,
}

/// Emitted once, when the contract is initialised.
#[derive(Clone, Copy, Debug, PartialEq, Eq, Structural)]
pub struct ContractInitialized {
    pub admin: Address,
}

/// Emitted when the full bonus config is replaced.
#[derive(Clone, Copy, Debug, PartialEq, Eq, Structural)]
pub struct ConfigSet {
    pub high_rep_threshold: u32,
    pub bonus_bps: u32,
    pub min_discount_rate_bps: u32,
}

/// Emitted when a new invoice is submitted.
#[derive(Clone, Copy, Debug, PartialEq, Eq, Structural)]
pub struct InvoiceSubmitted {
    pub invoice_id: u64,
    pub freelancer: Address,
    pub payer: Address,
    pub amount: i128,
    pub due_date: u64,
    pub effective_discount_rate_bps: u32,
}

/// Emitted when an invoice's status changes.
#[derive(Clone, Copy, Debug, PartialEq, Eq, Structural)]
pub struct InvoiceStatusChanged {
    pub invoice_id: u64,
    pub freelancer: Address,
    pub payer: Address,
    pub status: InvoiceStatus,
}

/// An event of the reputation-bonus contract, with what its topics carry
/// beyond the event's own fields.
#[derive(Clone, Debug, PartialEq, Eq)]
pub enum BonusEvent {
    /// Topics `parameter_updated, param_name, updated_by`.
    ParameterUpdated(ParameterUpdated),
    /// Topics `init, admin`.
    Initialized(ContractInitialized),
    /// Topic `cfg_set`.
    ConfigSet(ConfigSet),
    /// Topics `submitted, invoice_id, freelancer, payer`.
    InvoiceSubmitted(InvoiceSubmitted),
    /// Topics `topic, invoice_id`, where `topic` names the new status.
    InvoiceStatusChanged { topic: &'static str, event: InvoiceStatusChanged },
}

/// The first topic of a status-change event for `status`.
pub open spec fn status_topic_of(status: InvoiceStatus) -> Seq<char> {
    match status {
        InvoiceStatus::Paid => "paid"@,
        InvoiceStatus::Defaulted => "defaulted"@,
        InvoiceStatus::Pending => "pending"@,
        InvoiceStatus::Funded => "funded"@,
    }
}

/// The first topic of a status-change event for `status`.
pub fn status_topic(status: InvoiceStatus) -> (t: &'static str)
    ensures
        t@ == status_topic_of(status),
{
    match status {
        InvoiceStatus::Paid => "paid",
        InvoiceStatus::Defaulted => "defaulted",
        InvoiceStatus::Pending => "pending",
        InvoiceStatus::Funded => "funded",
    }
}

/// Publish that parameter `param_name` changed from `old_value` to
/// `new_value`, by `updated_by`.
pub fn emit_parameter_updated(
    log: &mut Vec<BonusEvent>,
    param_name: &str,
    old_value: i128,
    new_value: i128,
    updated_by: Address,
)
    requires
        is_valid_symbol(param_name@),
    ensures
        final(log)@.len() == old(log)@.len() + 1,
        final(log)@.subrange(0, old(log)@.len() as int) == old(log)@,
        final(log)@.last() matches BonusEvent::ParameterUpdated(e) && e.param_name@ == param_name@
            && e.old_value == old_value && e.new_value == new_value && e.updated_by == updated_by,
{
    let event = ParameterUpdated {
        param_name: param_name.to_owned(),
        old_value,
        new_value,
        updated_by,
    };
    log.push(BonusEvent::ParameterUpdated(event));
    assert(log@.subrange(0, old(log)@.len() as int) =~= old(log)@);
}

/// Publish that the contract was initialised with `admin`.
pub fn emit_initialized(log: &mut Vec<BonusEvent>, admin: Address)
    ensures
        final(log)@ == old(log)@.push(BonusEvent::Initialized(ContractInitialized { admin })),
{
    log.push(BonusEvent::Initialized(ContractInitialized { admin }));
}

/// Publish the bonus configuration that replaced the previous one.
pub fn emit_config_set(
    log: &mut Vec<BonusEvent>,
    high_rep_threshold: u32,
    bonus_bps: u32,
    min_discount_rate_bps: u32,
)
    ensures
        final(log)@ == old(log)@.push(
            BonusEvent::ConfigSet(ConfigSet { high_rep_threshold, bonus_bps, min_discount_rate_bps }),
        ),
{
    log.push(
        BonusEvent::ConfigSet(ConfigSet { high_rep_threshold, bonus_bps, min_discount_rate_bps }),
    );
}

/// Publish the submission of `invoice`.
pub fn emit_invoice_submitted(log: &mut Vec<BonusEvent>, invoice: &Invoice)
    ensures
        final(log)@ == old(log)@.push(
            BonusEvent::InvoiceSubmitted(
                InvoiceSubmitted {
                    invoice_id: invoice.id,
                    freelancer: invoice.freelancer,
                    payer: invoice.payer,
                    amount: invoice.amount,
                    due_date: invoice.due_date,
                    effective_discount_rate_bps: invoice.effective_discount_rate_bps,
                },
            ),
        ),
{
    log.push(
        BonusEvent::InvoiceSubmitted(
            InvoiceSubmitted {
                invoice_id: invoice.id,
                freelancer: invoice.freelancer,
                payer: invoice.payer,
                amount: invoice.amount,
                due_date: invoice.due_date,
                effective_discount_rate_bps: invoice.effective_discount_rate_bps,
            },
        ),
    );
}

/// Publish the status `invoice` is now in, under a topic naming the status.
pub fn emit_invoice_status_changed(log: &mut Vec<BonusEvent>, invoice: &Invoice)
    ensures
        final(log)@.len() == old(log)@.len() + 1,
        final(log)@.subrange(0, old(log)@.len() as int) == old(log)@,
        final(log)@.last() matches BonusEvent::InvoiceStatusChanged { topic, event } && topic@
            == status_topic_of(invoice.status) && event == (InvoiceStatusChanged {
            invoice_id: invoice.id,
            freelancer: invoice.freelancer,
            payer: invoice.payer,
            status: invoice.status,
        }),
{
    let topic = status_topic(invoice.status);
    log.push(
        BonusEvent::InvoiceStatusChanged {
            topic,
            event: InvoiceStatusChanged {
                invoice_id: invoice.id,
                freelancer: invoice.freelancer,
                payer: invoice.payer,
                status: invoice.status,
            },
        },
    );
    assert(log@.subrange(0, old(log)@.len() as int) =~= old(log)@);
}

} // verus!
