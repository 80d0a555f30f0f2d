//! The error taxonomy the payout flows surface to their callers.

use vstd::prelude::*;

use crate::status::PayoutStatus;

verus! {

/// Structured failures of a payout operation.
///
/// Validation errors reject a request before any connector call and mutate no
/// state. `PayoutFailed` is the terminal business outcome of a pass whose
/// resulting status is error-classified: it is persisted state surfaced as a
/// result, not a crash.
#[derive(Debug)]
pub enum PayoutError {
    /// An internal invariant of the caller's input was broken (for example an
    /// unusable routing shape).
    InternalServerError,
    /// No payout under the requested id for this merchant.
    PayoutNotFound,
    /// A payout under this id already exists for this merchant.
    DuplicatePayout { payout_id: u64 },
    /// A payout link under the requested id already exists.
    DuplicatePayoutLink { payout_link_id: u64 },
    /// The request lacks a field the flow needs.
    MissingRequiredField { field_name: String },
    /// The request asks for a transition the current status forbids.
    InvalidRequestData { message: String },
    /// The business profile is unknown or not linked to the merchant.
    BusinessProfileNotFound { profile_id: u64 },
    /// Payout links are not usable with the profile's configuration.
    LinkConfigurationError { message: String },
    /// The pass ended in an error-classified status.
    PayoutFailed {
        status: PayoutStatus,
        error_code: Option<String>,
        error_message: Option<String>,
    },
}

} // verus!
