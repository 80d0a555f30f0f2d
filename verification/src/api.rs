//! Request and response shapes, the engine configuration, and the routing
//! input a caller supplies for a pass.

use vstd::prelude::*;

use crate::records::{AddressRecord, RoutableConnectorChoice};
use crate::status::PayoutStatus;
use crate::types::{
    ConnectorName, Currency, EntityType, PayoutMethodData, PayoutSendPriority, PayoutType,
};

verus! {

/// Engine configuration a deployment fixes once.
pub struct PayoutsConfig {
    /// Eligibility assumed when the connector never reported one.
    pub payout_eligibility: bool,
    /// Payout-link session expiry, in seconds, when a request names none.
    pub default_session_expiry: u64,
    /// Base URL payout links are formed under when the profile has no domain
    /// of its own, e.g. "https://pay.example.com".
    pub base_url: String,
}

/// Merchant configuration gating failure-driven connector escalation.
#[derive(Clone, Copy, Debug, PartialEq, Eq, Structural)]
pub struct GsmConfig {
    /// Escalate to the next candidate connector on a retryable failure.
    pub multi_connector: bool,
}

/// Identifiers minted by the caller for records a request may create.
#[derive(Clone, Copy, Debug, PartialEq, Eq, Structural)]
pub struct FreshIds {
    pub payout_id: u64,
    pub address_id: u64,
    pub client_secret: u64,
    pub payout_link_id: u64,
    pub link_client_secret: u64,
}

/// Billing details supplied with a creation request.
#[derive(Debug)]
pub struct BillingDetails {
    pub city: Option<String>,
    pub country: Option<String>,
    pub line1: Option<String>,
    pub line2: Option<String>,
    pub line3: Option<String>,
    pub zip: Option<String>,
    pub state: Option<String>,
    pub first_name: Option<String>,
    pub last_name: Option<String>,
    pub phone_number: Option<String>,
    pub country_code: Option<String>,
    pub email: Option<String>,
}

/// Payout-link settings supplied with a creation request.
#[derive(Debug)]
pub struct PayoutLinkConfigRequest {
    pub payout_link_id: Option<u64>,
    pub logo: Option<String>,
    pub merchant_name: Option<String>,
    pub theme: Option<String>,
}

/// A payout creation / confirmation / update request.
#[derive(Debug)]
pub struct PayoutCreateRequest {
    pub payout_id: Option<u64>,
    pub amount: Option<u64>,
    pub currency: Option<Currency>,
    pub customer_id: Option<u64>,
    pub name: Option<String>,
    pub email: Option<String>,
    pub phone: Option<String>,
    pub phone_country_code: Option<String>,
    pub description: Option<String>,
    pub payout_type: Option<PayoutType>,
    pub payout_method_data: Option<PayoutMethodData>,
    pub payout_token: Option<u64>,
    pub billing: Option<BillingDetails>,
    pub recurring: Option<bool>,
    pub auto_fulfill: Option<bool>,
    pub confirm: Option<bool>,
    pub return_url: Option<String>,
    pub entity_type: Option<EntityType>,
    pub business_country: Option<String>,
    pub business_label: Option<String>,
    pub payout_link: Option<bool>,
    pub payout_link_config: Option<PayoutLinkConfigRequest>,
    pub session_expiry: Option<u64>,
    pub profile_id: Option<u64>,
    pub priority: Option<PayoutSendPriority>,
    /// Eligible-connector allowlist for routing.
    pub connector: Option<Vec<ConnectorName>>,
}

/// A cancel / fulfill request.
#[derive(Clone, Copy, Debug, PartialEq, Eq, Structural)]
pub struct PayoutActionRequest {
    pub payout_id: u64,
}

/// A retrieval request.
#[derive(Clone, Copy, Debug, PartialEq, Eq, Structural)]
pub struct PayoutRetrieveRequest {
    pub payout_id: u64,
    pub force_sync: Option<bool>,
    pub merchant_id: Option<u64>,
}

/// Any inbound payout request, for loading the aggregate.
pub enum PayoutRequest<'a> {
    PayoutCreateRequest(&'a PayoutCreateRequest),
    PayoutActionRequest(PayoutActionRequest),
    PayoutRetrieveRequest(PayoutRetrieveRequest),
}

/// Routing input for a pass: how the connector candidates are to be chosen.
pub enum ConnectorChoice {
    /// Multi-connector session display: not supported for payouts.
    SessionMultiple,
    /// A straight-through priority list from merchant or profile routing.
    StraightThrough(Vec<RoutableConnectorChoice>),
    /// Fall back to the merchant's default connector list.
    Decide,
}

/// Link data projected into a response.
#[derive(Debug)]
pub struct PayoutLinkResponse {
    pub payout_link_id: u64,
    pub link: String,
}

/// The external projection of a payout after an operation.
#[derive(Debug)]
pub struct PayoutCreateResponse {
    pub payout_id: u64,
    pub merchant_id: u64,
    pub amount: u64,
    pub currency: Currency,
    pub connector: Option<ConnectorName>,
    pub payout_type: Option<PayoutType>,
    pub billing: Option<AddressRecord>,
    pub customer_id: u64,
    pub auto_fulfill: bool,
    pub email: Option<String>,
    pub name: Option<String>,
    pub phone: Option<String>,
    pub phone_country_code: Option<String>,
    pub client_secret: Option<u64>,
    pub return_url: Option<String>,
    pub business_country: Option<String>,
    pub business_label: Option<String>,
    pub description: Option<String>,
    pub entity_type: EntityType,
    pub recurring: bool,
    pub status: PayoutStatus,
    pub error_message: Option<String>,
    pub error_code: Option<String>,
    pub profile_id: u64,
    pub created: Option<u64>,
    pub connector_transaction_id: Option<String>,
    pub priority: Option<PayoutSendPriority>,
    pub payout_link: Option<PayoutLinkResponse>,
}

} // verus!
