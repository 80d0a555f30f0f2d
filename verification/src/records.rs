//! Persisted record shapes: the payout, its attempts, and the collaborating
//! records (customer, address, business profile, payout link, scheduled
//! task, vault entry) the flows read and write.

use vstd::prelude::*;

use crate::status::PayoutStatus;
use crate::types::{
    clone_opt_string, clone_string_vec, ConnectorName, Currency, EntityType, PayoutMethodData,
    PayoutSendPriority, PayoutType,
};

verus! {

/// The resolved routing decision recorded on an attempt.
#[derive(Clone, Copy, Debug, PartialEq, Eq, Structural)]
pub struct RoutableConnectorChoice {
    pub connector: ConnectorName,
    pub merchant_connector_id: Option<u64>,
}

/// The payout: the merchant's immutable business intent, plus the status the
/// state machine drives.
#[derive(Debug)]
pub struct PayoutsRecord {
    pub payout_id: u64,
    pub merchant_id: u64,
    pub customer_id: u64,
    pub address_id: u64,
    pub payout_type: Option<PayoutType>,
    pub amount: u64,
    pub destination_currency: Currency,
    pub source_currency: Currency,
    pub description: Option<String>,
    pub recurring: bool,
    pub auto_fulfill: bool,
    pub return_url: Option<String>,
    pub entity_type: EntityType,
    pub payout_method_id: Option<u64>,
    pub profile_id: u64,
    pub attempt_count: u32,
    pub confirm: Option<bool>,
    pub payout_link_id: Option<u64>,
    pub client_secret: Option<u64>,
    pub priority: Option<PayoutSendPriority>,
    pub status: PayoutStatus,
    pub created_at: u64,
}

impl PayoutsRecord {
    /// An exact owned copy.
    pub fn duplicate(&self) -> (r: Self)
        ensures
            r == *self,
    {
        PayoutsRecord {
            payout_id: self.payout_id,
            merchant_id: self.merchant_id,
            customer_id: self.customer_id,
            address_id: self.address_id,
            payout_type: self.payout_type,
            amount: self.amount,
            destination_currency: self.destination_currency,
            source_currency: self.source_currency,
            description: clone_opt_string(&self.description),
            recurring: self.recurring,
            auto_fulfill: self.auto_fulfill,
            return_url: clone_opt_string(&self.return_url),
            entity_type: self.entity_type,
            payout_method_id: self.payout_method_id,
            profile_id: self.profile_id,
            attempt_count: self.attempt_count,
            confirm: self.confirm,
            payout_link_id: self.payout_link_id,
            client_secret: self.client_secret,
            priority: self.priority,
            status: self.status,
            created_at: self.created_at,
        }
    }
}

/// One connector try for a payout. The pair (payout_id, attempt_number)
/// identifies the attempt within a merchant; the current attempt is the one
/// whose number equals the payout's attempt_count.
#[derive(Debug)]
pub struct PayoutAttemptRecord {
    pub payout_id: u64,
    pub merchant_id: u64,
    pub attempt_number: u32,
    pub customer_id: u64,
    pub address_id: u64,
    pub profile_id: u64,
    pub status: PayoutStatus,
    pub connector: Option<ConnectorName>,
    pub merchant_connector_id: Option<u64>,
    pub connector_payout_id: Option<String>,
    pub error_code: Option<String>,
    pub error_message: Option<String>,
    pub is_eligible: Option<bool>,
    pub payout_token: Option<u64>,
    pub business_country: Option<String>,
    pub business_label: Option<String>,
    pub routing_info: Option<RoutableConnectorChoice>,
}

impl PayoutAttemptRecord {
    /// An exact owned copy.
    pub fn duplicate(&self) -> (r: Self)
        ensures
            r == *self,
    {
        PayoutAttemptRecord {
            payout_id: self.payout_id,
            merchant_id: self.merchant_id,
            attempt_number: self.attempt_number,
            customer_id: self.customer_id,
            address_id: self.address_id,
            profile_id: self.profile_id,
            status: self.status,
            connector: self.connector,
            merchant_connector_id: self.merchant_connector_id,
            connector_payout_id: clone_opt_string(&self.connector_payout_id),
            error_code: clone_opt_string(&self.error_code),
            error_message: clone_opt_string(&self.error_message),
            is_eligible: self.is_eligible,
            payout_token: self.payout_token,
            business_country: clone_opt_string(&self.business_country),
            business_label: clone_opt_string(&self.business_label),
            routing_info: self.routing_info,
        }
    }
}

/// A customer registration the connector made for a given business profile.
#[derive(Debug)]
pub struct ConnectorCustomerEntry {
    pub profile_id: u64,
    pub connector: ConnectorName,
    pub connector_customer_id: String,
}

impl ConnectorCustomerEntry {
    pub fn duplicate(&self) -> (r: Self)
        ensures
            r == *self,
    {
        ConnectorCustomerEntry {
            profile_id: self.profile_id,
            connector: self.connector,
            connector_customer_id: self.connector_customer_id.clone(),
        }
    }
}

/// The payee's customer record.
#[derive(Debug)]
pub struct CustomerRecord {
    pub customer_id: u64,
    pub merchant_id: u64,
    pub name: Option<String>,
    pub email: Option<String>,
    pub phone: Option<String>,
    pub phone_country_code: Option<String>,
    pub connector_customers: Vec<ConnectorCustomerEntry>,
}

/// Everything but the connector-customer list compared field by field; the
/// list compared as a sequence of values.
pub open spec fn customer_like(a: CustomerRecord, b: CustomerRecord) -> bool {
    a.customer_id == b.customer_id && a.merchant_id == b.merchant_id && a.name == b.name
        && a.email == b.email && a.phone == b.phone && a.phone_country_code == b.phone_country_code
        && a.connector_customers@ == b.connector_customers@
}

impl CustomerRecord {
    /// An owned copy carrying the same values.
    pub fn duplicate(&self) -> (r: Self)
        ensures
            customer_like(r, *self),
    {
        let mut entries: Vec<ConnectorCustomerEntry> = Vec::new();
        let mut i: usize = 0;
        while i < self.connector_customers.len()
            invariant
                i <= self.connector_customers.len(),
                entries@ == self.connector_customers@.subrange(0, i as int),
            decreases self.connector_customers.len() - i,
        {
            entries.push(self.connector_customers[i].duplicate());
            i = i + 1;
            proof {
                assert(entries@ =~= self.connector_customers@.subrange(0, i as int));
            }
        }
        proof {
            assert(entries@ =~= self.connector_customers@);
        }
        CustomerRecord {
            customer_id: self.customer_id,
            merchant_id: self.merchant_id,
            name: clone_opt_string(&self.name),
            email: clone_opt_string(&self.email),
            phone: clone_opt_string(&self.phone),
            phone_country_code: clone_opt_string(&self.phone_country_code),
            connector_customers: entries,
        }
    }
}

/// Billing address resolved for a payout.
#[derive(Debug)]
pub struct AddressRecord {
    pub address_id: u64,
    pub customer_id: Option<u64>,
    pub city: Option<String>,
    pub country: Option<String>,
    pub line1: Option<String>,
    pub line2: Option<String>,
    pub line3: Option<String>,
    pub zip: Option<String>,
    pub state: Option<String>,
    pub first_name: Option<String>,
    pub last_name: Option<String>,
    pub phone_number: Option<String>,
    pub country_code: Option<String>,
    pub email: Option<String>,
}

impl AddressRecord {
    /// An exact owned copy.
    pub fn duplicate(&self) -> (r: Self)
        ensures
            r == *self,
    {
        AddressRecord {
            address_id: self.address_id,
            customer_id: self.customer_id,
            city: clone_opt_string(&self.city),
            country: clone_opt_string(&self.country),
            line1: clone_opt_string(&self.line1),
            line2: clone_opt_string(&self.line2),
            line3: clone_opt_string(&self.line3),
            zip: clone_opt_string(&self.zip),
            state: clone_opt_string(&self.state),
            first_name: clone_opt_string(&self.first_name),
            last_name: clone_opt_string(&self.last_name),
            phone_number: clone_opt_string(&self.phone_number),
            country_code: clone_opt_string(&self.country_code),
            email: clone_opt_string(&self.email),
        }
    }
}

/// Payout-link settings configured on a business profile.
#[derive(Debug)]
pub struct BusinessPayoutLinkConfig {
    pub allowed_domains: Vec<String>,
    pub domain_name: Option<String>,
    pub logo: Option<String>,
    pub merchant_name: Option<String>,
    pub theme: Option<String>,
}

pub open spec fn link_config_like(a: BusinessPayoutLinkConfig, b: BusinessPayoutLinkConfig) -> bool {
    a.allowed_domains@ == b.allowed_domains@ && a.domain_name == b.domain_name && a.logo == b.logo
        && a.merchant_name == b.merchant_name && a.theme == b.theme
}

impl BusinessPayoutLinkConfig {
    pub fn duplicate(&self) -> (r: Self)
        ensures
            link_config_like(r, *self),
    {
        BusinessPayoutLinkConfig {
            allowed_domains: clone_string_vec(&self.allowed_domains),
            domain_name: clone_opt_string(&self.domain_name),
            logo: clone_opt_string(&self.logo),
            merchant_name: clone_opt_string(&self.merchant_name),
            theme: clone_opt_string(&self.theme),
        }
    }
}

/// A merchant's business profile, as far as payouts read it.
#[derive(Debug)]
pub struct BusinessProfileRecord {
    pub profile_id: u64,
    pub merchant_id: u64,
    pub payout_link_config: Option<BusinessPayoutLinkConfig>,
}

pub open spec fn profile_like(a: BusinessProfileRecord, b: BusinessProfileRecord) -> bool {
    a.profile_id == b.profile_id && a.merchant_id == b.merchant_id && match (
        a.payout_link_config,
        b.payout_link_config,
    ) {
        (Some(ca), Some(cb)) => link_config_like(ca, cb),
        (None, None) => true,
        _ => false,
    }
}

impl BusinessProfileRecord {
    pub fn duplicate(&self) -> (r: Self)
        ensures
            profile_like(r, *self),
    {
        BusinessProfileRecord {
            profile_id: self.profile_id,
            merchant_id: self.merchant_id,
            payout_link_config: match &self.payout_link_config {
                Some(c) => Some(c.duplicate()),
                None => None,
            },
        }
    }
}

/// State of a customer-facing payout link session.
#[derive(Clone, Copy, Debug, PartialEq, Eq, Structural)]
pub enum PayoutLinkStatus {
    Initiated,
    Submitted,
    Invalidated,
}

/// A customer-facing resumable session over a payout.
#[derive(Debug)]
pub struct PayoutLinkRecord {
    pub link_id: u64,
    pub payout_id: u64,
    pub merchant_id: u64,
    pub customer_id: u64,
    pub status: PayoutLinkStatus,
    pub url: String,
    pub client_secret: u64,
    pub session_expiry: u64,
    pub expiry_time: u64,
    pub amount: u64,
    pub currency: Currency,
    pub allowed_domains: Vec<String>,
    pub logo: Option<String>,
    pub merchant_name: Option<String>,
    pub theme: Option<String>,
    pub return_url: Option<String>,
}

pub open spec fn link_like(a: PayoutLinkRecord, b: PayoutLinkRecord) -> bool {
    a.link_id == b.link_id && a.payout_id == b.payout_id && a.merchant_id == b.merchant_id
        && a.customer_id == b.customer_id && a.status == b.status && a.url == b.url
        && a.client_secret == b.client_secret && a.session_expiry == b.session_expiry
        && a.expiry_time == b.expiry_time && a.amount == b.amount && a.currency == b.currency
        && a.allowed_domains@ == b.allowed_domains@ && a.logo == b.logo
        && a.merchant_name == b.merchant_name && a.theme == b.theme && a.return_url == b.return_url
}

impl PayoutLinkRecord {
    pub fn duplicate(&self) -> (r: Self)
        ensures
            link_like(r, *self),
    {
        PayoutLinkRecord {
            link_id: self.link_id,
            payout_id: self.payout_id,
            merchant_id: self.merchant_id,
            customer_id: self.customer_id,
            status: self.status,
            url: self.url.clone(),
            client_secret: self.client_secret,
            session_expiry: self.session_expiry,
            expiry_time: self.expiry_time,
            amount: self.amount,
            currency: self.currency,
            allowed_domains: clone_string_vec(&self.allowed_domains),
            logo: clone_opt_string(&self.logo),
            merchant_name: clone_opt_string(&self.merchant_name),
            theme: clone_opt_string(&self.theme),
            return_url: clone_opt_string(&self.return_url),
        }
    }
}

/// The runner a deferred task is handed to.
#[derive(Clone, Copy, Debug, PartialEq, Eq, Structural)]
pub enum TaskRunner {
    AttachPayoutAccountWorkflow,
}

/// A deferred continuation: wake at schedule_time and resume the payout.
#[derive(Clone, Copy, Debug, PartialEq, Eq, Structural)]
pub struct ScheduledTaskRecord {
    pub runner: TaskRunner,
    pub merchant_id: u64,
    pub payout_id: u64,
    pub attempt_number: u32,
    pub schedule_time: u64,
}

/// Tokenized payout method data held by the vault.
#[derive(Clone, Copy, Debug, PartialEq, Eq, Structural)]
pub struct VaultEntry {
    pub merchant_id: u64,
    pub customer_id: u64,
    pub token: u64,
    pub method_data: PayoutMethodData,
}

/// The merchant on whose behalf a pass runs.
#[derive(Clone, Copy, Debug, PartialEq, Eq, Structural)]
pub struct MerchantAccount {
    pub merchant_id: u64,
    pub default_profile_id: Option<u64>,
}

} // verus!
