//! Records kept by the liquidity contract.

use vstd::prelude::*;

use crate::host::Address;

verus! {

/// Lifecycle state of an invoice.
#[derive(Clone, Copy, Debug, PartialEq, Eq, Structural)]
pub enum InvoiceStatus {
    /// Submitted, awaiting liquidity.
    Pending,
    /// Fully funded by LP(s), freelancer paid out.
    Funded,
    /// Partially funded, still awaiting the remainder.
    PartiallyFunded,
    /// Payer settled in full.
    Paid,
    /// Past due date, unpaid.
    Defaulted,
    /// Payer contested the default ruling.
    Appealed,
    /// Payer disputed the invoice before settlement.
    Disputed,
    /// Past due date with no funding.
    Expired,
    /// Freelancer cancelled before funding.
    Cancelled,
}

/// An invoice as stored by the liquidity contract.
#[derive(Clone, Copy, Debug, PartialEq, Eq, Structural)]
pub struct Invoice {
    pub id: u64,
    pub freelancer: Address,
    pub payer: Address,
    pub token: Address,
    pub amount: i128,
    pub due_date: u64,
    /// Discount rate in basis points.
    pub discount_rate: u32,
    pub status: InvoiceStatus,
    pub funder: Option<Address>,
    pub funded_at: Option<u64>,
    pub amount_funded: i128,
    pub amount_paid: i128,
    /// Freelancer's reputation when the invoice was submitted.
    pub submitter_reputation: u32,
}

/// A payer's reputation score and the ledger of its last update; the score
/// decays with inactivity.
#[derive(Clone, Copy, Debug, PartialEq, Eq, Structural)]
pub struct ReputationScore {
    pub score: u32,
    pub last_activity_ledger: u32,
}

/// The reputation-decay parameters of the contract configuration.
#[derive(Clone, Copy, Debug, PartialEq, Eq, Structural)]
pub struct Config {
    /// Length of one decay period, in ledgers.
    pub decay_period_ledgers: u64,
    /// Share of the score lost per period, in basis points.
    pub decay_rate_bps: u32,
}

/// An LP's request to fund an invoice, with its reputation at joining time.
#[derive(Clone, Copy, Debug, PartialEq, Eq, Structural)]
pub struct LpFundRequest {
    pub lp: Address,
    pub score: u32,
}

/// A payer's appeal against a default ruling.
#[derive(Clone, Copy, Debug, PartialEq, Eq)]
pub struct AppealRecord {
    pub payer: Address,
    /// Hash of the evidence submitted with the appeal.
    pub evidence: [u8; 32],
    pub appealed_at: u64,
}

} // verus!
