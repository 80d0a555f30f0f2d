use payouts_core::api::{ConnectorChoice, GsmConfig, PayoutsConfig};
use payouts_core::connector::{
    ConnectorCapabilities, ConnectorGateway, ConnectorOutcome, ConnectorRegistry, RegistryEntry,
};
use payouts_core::error::PayoutError;
use payouts_core::flows::saturating_add_u64;
use payouts_core::keymanager::{DataKeyCreateResponse, EncryptionCreateRequest, EncryptionTransferRequest, Identifier};
use payouts_core::payouts::payouts_create_core;
use payouts_core::records::{
    BusinessPayoutLinkConfig, BusinessProfileRecord, MerchantAccount, PayoutLinkStatus,
    RoutableConnectorChoice,
};
use payouts_core::status::PayoutStatus;
use payouts_core::store::PayoutStore;
use payouts_core::textfmt::u64_to_string;
use payouts_core::types::{ConnectorName, Currency, PayoutMethodData, PayoutType};

const MERCHANT_ID: u64 = 7;
const PROFILE_ID: u64 = 21;

fn merchant() -> MerchantAccount {
    MerchantAccount { merchant_id: MERCHANT_ID, default_profile_id: Some(PROFILE_ID) }
}

fn config() -> PayoutsConfig {
    PayoutsConfig {
        payout_eligibility: true,
        default_session_expiry: 900,
        base_url: "https://pay.example.com".to_string(),
    }
}

fn store_with_link_domain(domain: Option<&str>) -> PayoutStore {
    let mut store = PayoutStore::new();
    store
        .insert_business_profile(BusinessProfileRecord {
            profile_id: PROFILE_ID,
            merchant_id: MERCHANT_ID,
            payout_link_config: Some(BusinessPayoutLinkConfig {
                allowed_domains: vec!["example.com".to_string()],
                domain_name: domain.map(|d| d.to_string()),
                logo: None,
                merchant_name: None,
                theme: None,
            }),
        })
        .unwrap();
    store
}

fn link_request() -> payouts_core::api::PayoutCreateRequest {
    payouts_core::api::PayoutCreateRequest {
        payout_id: Some(510),
        amount: Some(1000),
        currency: Some(Currency::Usd),
        customer_id: Some(42),
        name: None,
        email: None,
        phone: None,
        phone_country_code: None,
        description: None,
        payout_type: Some(PayoutType::Bank),
        payout_method_data: Some(PayoutMethodData::Bank {
            account_number: 12345678,
            routing_number: 110000000,
        }),
        payout_token: None,
        billing: Some(payouts_core::api::BillingDetails {
            city: None,
            country: None,
            line1: Some("Main Street 1".to_string()),
            line2: None,
            line3: None,
            zip: None,
            state: None,
            first_name: None,
            last_name: None,
            phone_number: None,
            country_code: None,
            email: None,
        }),
        recurring: None,
        auto_fulfill: None,
        confirm: Some(false),
        return_url: None,
        entity_type: None,
        business_country: None,
        business_label: None,
        payout_link: Some(true),
        payout_link_config: None,
        session_expiry: Some(600),
        profile_id: Some(PROFILE_ID),
        priority: None,
        connector: None,
    }
}

fn fresh() -> payouts_core::api::FreshIds {
    payouts_core::api::FreshIds {
        payout_id: 510,
        address_id: 900,
        client_secret: 12345,
        payout_link_id: 77,
        link_client_secret: 54321,
    }
}

fn plain_registry() -> ConnectorRegistry {
    let mut r = ConnectorRegistry::new();
    assert!(r.register(RegistryEntry {
        name: ConnectorName::Adyenplatform,
        capabilities: ConnectorCapabilities {
            eligibility: false,
            recipient_create: false,
            instant_payout: false,
            vendor_disburse_account_create: false,
            quote_required: false,
        },
        merchant_connector_id: None,
    }));
    r
}

#[test]
fn decimal_rendering_is_exact() {
    assert_eq!(u64_to_string(0), "0");
    assert_eq!(u64_to_string(7), "7");
    assert_eq!(u64_to_string(98765), "98765");
    assert_eq!(u64_to_string(1000), "1000");
    assert_eq!(u64_to_string(u64::MAX), "18446744073709551615");
}

#[test]
fn saturating_add_clamps_at_the_maximum() {
    assert_eq!(saturating_add_u64(5, 7), 12);
    assert_eq!(saturating_add_u64(u64::MAX, 5), u64::MAX);
    assert_eq!(saturating_add_u64(u64::MAX - 3, 3), u64::MAX);
}

#[test]
fn payout_link_is_created_under_the_profile_domain() {
    let mut store = store_with_link_domain(Some("pay.merchant.example"));
    let mut gw = ConnectorGateway::new(vec![]);
    let registry = plain_registry();
    let resp = payouts_create_core(
        &mut store,
        &mut gw,
        &registry,
        &config(),
        &GsmConfig { multi_connector: false },
        &merchant(),
        &link_request(),
        &ConnectorChoice::Decide,
        &vec![RoutableConnectorChoice { connector: ConnectorName::Adyenplatform, merchant_connector_id: None }],
        &fresh(),
        1_000,
    )
    .unwrap();
    let link = resp.payout_link.expect("a payout link was requested");
    assert_eq!(link.payout_link_id, 77);
    assert_eq!(link.link, "https://pay.merchant.example/payout_link/7/510");
    let stored = store.find_payout_link(77).unwrap();
    assert_eq!(stored.status, PayoutLinkStatus::Initiated);
    assert_eq!(stored.session_expiry, 600);
    assert_eq!(stored.expiry_time, 1_600);
    assert_eq!(stored.amount, 1000);
}

#[test]
fn payout_link_falls_back_to_the_deployment_base_url() {
    let mut store = store_with_link_domain(None);
    let mut gw = ConnectorGateway::new(vec![]);
    let registry = plain_registry();
    let resp = payouts_create_core(
        &mut store,
        &mut gw,
        &registry,
        &config(),
        &GsmConfig { multi_connector: false },
        &merchant(),
        &link_request(),
        &ConnectorChoice::Decide,
        &vec![RoutableConnectorChoice { connector: ConnectorName::Adyenplatform, merchant_connector_id: None }],
        &fresh(),
        1_000,
    )
    .unwrap();
    let link = resp.payout_link.expect("a payout link was requested");
    assert_eq!(link.link, "https://pay.example.com/payout_link/7/510");
}

#[test]
fn unparseable_link_domain_is_rejected() {
    // A domain that cannot form an absolute URL makes link creation fail.
    let mut store = store_with_link_domain(Some("bad domain with spaces"));
    let mut gw = ConnectorGateway::new(vec![]);
    let registry = plain_registry();
    let err = payouts_create_core(
        &mut store,
        &mut gw,
        &registry,
        &config(),
        &GsmConfig { multi_connector: false },
        &merchant(),
        &link_request(),
        &ConnectorChoice::Decide,
        &vec![RoutableConnectorChoice { connector: ConnectorName::Adyenplatform, merchant_connector_id: None }],
        &fresh(),
        1_000,
    )
    .unwrap_err();
    assert!(matches!(err, PayoutError::InternalServerError));
    assert!(store.find_payout(MERCHANT_ID, 510).is_none());
}

#[test]
fn payout_link_needs_profile_configuration() {
    let mut store = PayoutStore::new();
    store
        .insert_business_profile(BusinessProfileRecord {
            profile_id: PROFILE_ID,
            merchant_id: MERCHANT_ID,
            payout_link_config: None,
        })
        .unwrap();
    let mut gw = ConnectorGateway::new(vec![]);
    let registry = plain_registry();
    let err = payouts_create_core(
        &mut store,
        &mut gw,
        &registry,
        &config(),
        &GsmConfig { multi_connector: false },
        &merchant(),
        &link_request(),
        &ConnectorChoice::Decide,
        &vec![RoutableConnectorChoice { connector: ConnectorName::Adyenplatform, merchant_connector_id: None }],
        &fresh(),
        1_000,
    )
    .unwrap_err();
    assert!(matches!(err, PayoutError::LinkConfigurationError { .. }));
}

#[test]
fn confirming_submits_the_payout_link() {
    let mut store = store_with_link_domain(None);
    let mut gw = ConnectorGateway::new(vec![]);
    let registry = plain_registry();
    payouts_create_core(
        &mut store,
        &mut gw,
        &registry,
        &config(),
        &GsmConfig { multi_connector: false },
        &merchant(),
        &link_request(),
        &ConnectorChoice::Decide,
        &vec![RoutableConnectorChoice { connector: ConnectorName::Adyenplatform, merchant_connector_id: None }],
        &fresh(),
        1_000,
    )
    .unwrap();
    let mut confirm = link_request();
    confirm.confirm = Some(true);
    let mut gw2 = ConnectorGateway::new(vec![ConnectorOutcome::Success(
        payouts_core::connector::ConnectorResponseData {
            status: Some(PayoutStatus::RequiresFulfillment),
            connector_payout_id: Some("po_1".to_string()),
            payout_eligible: None,
            should_add_next_step_to_process_tracker: false,
            error_code: None,
            error_message: None,
        },
    )]);
    let resp = payouts_core::payouts::payouts_confirm_core(
        &mut store,
        &mut gw2,
        &registry,
        &config(),
        &GsmConfig { multi_connector: false },
        &merchant(),
        &confirm,
        &ConnectorChoice::Decide,
        &vec![RoutableConnectorChoice { connector: ConnectorName::Adyenplatform, merchant_connector_id: None }],
        1_000,
    )
    .unwrap();
    assert_eq!(resp.status, PayoutStatus::RequiresFulfillment);
    let stored = store.find_payout_link(77).unwrap();
    assert_eq!(stored.status, PayoutLinkStatus::Submitted);
}

#[test]
fn key_identifier_exposes_its_owner() {
    let merchant_key = Identifier::Merchant("m_7".to_string());
    assert!(merchant_key.is_merchant());
    assert_eq!(merchant_key.inner(), "m_7");
    let user_key = Identifier::User("u_1".to_string());
    assert!(!user_key.is_merchant());
    assert_eq!(user_key.inner(), "u_1");
    let create = EncryptionCreateRequest { identifier: merchant_key.clone() };
    assert_eq!(create.identifier, merchant_key);
    let transfer = EncryptionTransferRequest {
        identifier: user_key.clone(),
        key: "imported-key-material".to_string(),
    };
    assert_eq!(transfer.identifier, user_key);
    let response = DataKeyCreateResponse { identifier: merchant_key, key_version: "v1".to_string() };
    assert_eq!(response.key_version, "v1");
}
