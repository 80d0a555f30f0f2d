//! The payout status machine: the status values a payout and its current
//! attempt move through, and the predicates that gate each sub-flow.

use vstd::prelude::*;

verus! {

/// Lifecycle status shared by a payout and its current attempt.
#[derive(Clone, Copy, Debug, PartialEq, Eq, Structural)]
pub enum PayoutStatus {
    /// No bank/card/wallet data is attached yet.
    RequiresPayoutMethodData,
    /// Method data is present; awaiting an explicit confirm.
    RequiresConfirmation,
    /// Ready for the connector's creation operation.
    RequiresCreation,
    /// Recipient exists but the connector still needs a disbursement account.
    RequiresVendorAccountCreation,
    /// Payout created; an explicit fulfillment call is still needed.
    RequiresFulfillment,
    /// A connector call is in flight on the connector's side.
    Pending,
    /// Terminal: funds disbursed.
    Success,
    /// Terminal: the payout failed.
    Failed,
    /// Terminal: the payout was cancelled.
    Cancelled,
    /// Terminal: the payout method was judged ineligible.
    Ineligible,
}

/// Terminal statuses: no further transition is legal.
pub open spec fn spec_is_terminal_state(s: PayoutStatus) -> bool {
    s == PayoutStatus::Success || s == PayoutStatus::Failed || s == PayoutStatus::Cancelled
        || s == PayoutStatus::Ineligible
}

/// Error-classified statuses: reaching one of these makes the pass surface a
/// `PayoutFailed` result.
pub open spec fn spec_is_err_state(s: PayoutStatus) -> bool {
    s == PayoutStatus::Failed || s == PayoutStatus::Cancelled || s == PayoutStatus::Ineligible
}

/// Statuses from which the creation sub-flows (recipient creation, payout
/// creation) may run.
pub open spec fn spec_is_creation_eligible(s: PayoutStatus) -> bool {
    s == PayoutStatus::RequiresCreation || s == PayoutStatus::RequiresConfirmation
        || s == PayoutStatus::RequiresPayoutMethodData
}

/// Statuses in which no connector call has been made for the payout yet, so a
/// cancellation can be recorded locally without involving the connector.
pub open spec fn spec_is_locally_cancellable(s: PayoutStatus) -> bool {
    spec_is_creation_eligible(s)
}

/// Statuses in which the payout was already handed to the connector, so an
/// update of the business intent is no longer allowed.
pub open spec fn spec_is_initiated(s: PayoutStatus) -> bool {
    s == PayoutStatus::Pending || s == PayoutStatus::RequiresFulfillment
}

/// Statuses for which a forced sync asks the connector for the current state.
pub open spec fn spec_should_call_retrieve(s: PayoutStatus) -> bool {
    s == PayoutStatus::Pending || s == PayoutStatus::RequiresFulfillment
}

pub fn is_payout_terminal_state(s: PayoutStatus) -> (r: bool)
    ensures
        r == spec_is_terminal_state(s),
{
    matches!(
        s,
        PayoutStatus::Success | PayoutStatus::Failed | PayoutStatus::Cancelled
            | PayoutStatus::Ineligible,
    )
}

pub fn is_payout_err_state(s: PayoutStatus) -> (r: bool)
    ensures
        r == spec_is_err_state(s),
{
    matches!(s, PayoutStatus::Failed | PayoutStatus::Cancelled | PayoutStatus::Ineligible)
}

pub fn is_creation_eligible(s: PayoutStatus) -> (r: bool)
    ensures
        r == spec_is_creation_eligible(s),
{
    matches!(
        s,
        PayoutStatus::RequiresCreation | PayoutStatus::RequiresConfirmation
            | PayoutStatus::RequiresPayoutMethodData,
    )
}

pub fn is_eligible_for_local_payout_cancellation(s: PayoutStatus) -> (r: bool)
    ensures
        r == spec_is_locally_cancellable(s),
{
    is_creation_eligible(s)
}

pub fn is_payout_initiated(s: PayoutStatus) -> (r: bool)
    ensures
        r == spec_is_initiated(s),
{
    matches!(s, PayoutStatus::Pending | PayoutStatus::RequiresFulfillment)
}

pub fn should_call_retrieve(s: PayoutStatus) -> (r: bool)
    ensures
        r == spec_should_call_retrieve(s),
{
    matches!(s, PayoutStatus::Pending | PayoutStatus::RequiresFulfillment)
}

} // verus!
