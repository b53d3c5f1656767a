//! Errors of the liquidity contract.

use vstd::prelude::*;

verus! {

/// Errors returned by the liquidity contract; each has a stable numeric code.
#[derive(Copy, Clone, Debug, PartialEq, Eq, PartialOrd, Ord, Structural)]
pub enum ContractError {
    /// The requested invoice ID does not exist in contract storage.
    InvoiceNotFound,
    /// The invoice is already funded and cannot be funded again.
    AlreadyFunded,
    /// The invoice has already been paid.
    AlreadyPaid,
    /// The invoice has not been funded yet.
    NotFunded,
    /// The caller does not have the required role or authorization for the action.
    Unauthorized,
    /// The provided amount is not acceptable to the contract.
    InvalidAmount,
    /// The discount rate is outside the allowed range.
    InvalidDiscountRate,
    /// The due date is not valid for invoice creation or update.
    InvalidDueDate,
    /// The invoice has already defaulted.
    InvoiceDefaulted,
    /// There is no yield or claimable amount available.
    NothingToClaim,
    /// The invoice has not reached the default threshold yet.
    NotYetDefaulted,
    /// The funding attempt would exceed the invoice's remaining amount.
    OverfundingRejected,
    /// The invoice has expired and cannot proceed through normal settlement.
    InvoiceExpired,
    /// The submitted batch exceeds the contract's maximum batch size.
    BatchTooLarge,
    /// The invoice was already cancelled.
    AlreadyCancelled,
    /// The contract was initialized more than once.
    AlreadyInitialized,
    /// An appeal already exists for this invoice.
    AlreadyAppealed,
    /// The appeal deadline has passed.
    AppealWindowClosed,
    /// The invoice is not currently in the defaulted state required by this action.
    NotDefaulted,
    /// The LP has already joined the funding queue for this invoice.
    AlreadyInQueue,
    /// The LP is not the funder approved by the priority queue.
    NotApprovedFunder,
    /// The invoice is currently in the appealed state.
    InvoiceAppealed,
    /// The invoice is already disputed.
    AlreadyDisputed,
    /// The invoice is not in a disputed state.
    NotDisputed,
    /// The invoice is under dispute and cannot proceed through normal settlement.
    InvoiceDisputed,
    /// The contract is currently paused.
    ContractPaused,
    /// The due date is earlier than the minimum allowed horizon.
    DueDateTooSoon,
    /// The due date is later than the maximum allowed horizon.
    DueDateTooFar,
    /// The payer and invoice creator are the same address.
    SelfInvoice,
    /// The payment amount exceeds the remaining amount due.
    OverpaymentRejected,
    /// The payer's reputation is below the configured minimum threshold.
    PayerReputationTooLow,
    /// A checked arithmetic operation overflowed.
    ArithmeticOverflow,
    /// The token charges a transfer fee, so the received amount differs from the amount sent.
    FeeOnTransferToken,
    /// The oracle did not verify the payer when verification was required.
    PayerUnverified,
    /// The oracle response is older than the configured freshness window.
    OracleDataStale,
    /// The invoice amount is below the configurable minimum threshold.
    AmountTooSmall,
    /// Reentrant call detected.
    Reentrancy,
    /// Rate-limited function called before cooldown elapsed.
    RateLimited,
    /// Queue resolution attempted prior to the mandatory maturity delay.
    QueueNotMature,
}

impl ContractError {
    /// The error's stable numeric code.
    pub open spec fn spec_code(self) -> u32 {
        match self {
            ContractError::InvoiceNotFound => 1,
            ContractError::AlreadyFunded => 2,
            ContractError::AlreadyPaid => 3,
            ContractError::NotFunded => 4,
            ContractError::Unauthorized => 5,
            ContractError::InvalidAmount => 6,
            ContractError::InvalidDiscountRate => 7,
            ContractError::InvalidDueDate => 8,
            ContractError::InvoiceDefaulted => 9,
            ContractError::NothingToClaim => 10,
            ContractError::NotYetDefaulted => 11,
            ContractError::OverfundingRejected => 12,
            ContractError::InvoiceExpired => 13,
            ContractError::BatchTooLarge => 14,
            ContractError::AlreadyCancelled => 15,
            ContractError::AlreadyInitialized => 16,
            ContractError::AlreadyAppealed => 17,
            ContractError::AppealWindowClosed => 18,
            ContractError::NotDefaulted => 19,
            ContractError::AlreadyInQueue => 20,
            ContractError::NotApprovedFunder => 21,
            ContractError::InvoiceAppealed => 22,
            ContractError::AlreadyDisputed => 23,
            ContractError::NotDisputed => 24,
            ContractError::InvoiceDisputed => 25,
            ContractError::ContractPaused => 26,
            ContractError::DueDateTooSoon => 27,
            ContractError::DueDateTooFar => 28,
            ContractError::SelfInvoice => 29,
            ContractError::OverpaymentRejected => 30,
            ContractError::PayerReputationTooLow => 31,
            ContractError::ArithmeticOverflow => 32,
            ContractError::FeeOnTransferToken => 33,
            ContractError::PayerUnverified => 34,
            ContractError::OracleDataStale => 35,
            ContractError::AmountTooSmall => 36,
            ContractError::Reentrancy => 37,
            ContractError::RateLimited => 38,
            ContractError::QueueNotMature => 39,
        }
    }

    /// The error's stable numeric code.
    pub fn code(&self) -> (c: u32)
        ensures
            c == self.spec_code(),
    {
        match self {
            ContractError::InvoiceNotFound => 1,
            ContractError::AlreadyFunded => 2,
            ContractError::AlreadyPaid => 3,
            ContractError::NotFunded => 4,
            ContractError::Unauthorized => 5,
            ContractError::InvalidAmount => 6,
            ContractError::InvalidDiscountRate => 7,
            ContractError::InvalidDueDate => 8,
            ContractError::InvoiceDefaulted => 9,
            ContractError::NothingToClaim => 10,
            ContractError::NotYetDefaulted => 11,
            ContractError::OverfundingRejected => 12,
            ContractError::InvoiceExpired => 13,
            ContractError::BatchTooLarge => 14,
            ContractError::AlreadyCancelled => 15,
            ContractError::AlreadyInitialized => 16,
            ContractError::AlreadyAppealed => 17,
            ContractError::AppealWindowClosed => 18,
            ContractError::NotDefaulted => 19,
            ContractError::AlreadyInQueue => 20,
            ContractError::NotApprovedFunder => 21,
            ContractError::InvoiceAppealed => 22,
            ContractError::AlreadyDisputed => 23,
            ContractError::NotDisputed => 24,
            ContractError::InvoiceDisputed => 25,
            ContractError::ContractPaused => 26,
            ContractError::DueDateTooSoon => 27,
            ContractError::DueDateTooFar => 28,
            ContractError::SelfInvoice => 29,
            ContractError::OverpaymentRejected => 30,
            ContractError::PayerReputationTooLow => 31,
            ContractError::ArithmeticOverflow => 32,
            ContractError::FeeOnTransferToken => 33,
            ContractError::PayerUnverified => 34,
            ContractError::OracleDataStale => 35,
            ContractError::AmountTooSmall => 36,
            ContractError::Reentrancy => 37,
            ContractError::RateLimited => 38,
            ContractError::QueueNotMature => 39,
        }
    }
}

} // verus!
