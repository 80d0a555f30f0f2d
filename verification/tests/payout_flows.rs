use payouts_core::api::{
    BillingDetails, ConnectorChoice, FreshIds, GsmConfig, PayoutActionRequest, PayoutCreateRequest,
    PayoutRetrieveRequest, PayoutsConfig,
};
use payouts_core::connector::{
    ConnectorCapabilities, ConnectorGateway, ConnectorOutcome, ConnectorQueue, ConnectorRegistry,
    ConnectorResponseData, ConnectorErrorResponse, PayoutOperation, RegistryEntry,
};
use payouts_core::error::PayoutError;
use payouts_core::flows::ACCOUNT_ONBOARDING_DELAY_SECONDS;
use payouts_core::lists::{PayoutListConstraints, PayoutListFilterConstraints};
use payouts_core::payouts::{
    get_next_connector, payouts_cancel_core, payouts_confirm_core, payouts_create_core,
    payouts_fulfill_core, payouts_retrieve_core, payouts_update_core,
};
use payouts_core::records::{
    BusinessPayoutLinkConfig, BusinessProfileRecord, MerchantAccount, RoutableConnectorChoice,
};
use payouts_core::status::PayoutStatus;
use payouts_core::store::PayoutStore;
use payouts_core::types::{ConnectorName, Currency, PayoutMethodData, PayoutType};

const MERCHANT_ID: u64 = 7;
const PROFILE_ID: u64 = 21;

fn merchant() -> MerchantAccount {
    MerchantAccount { merchant_id: MERCHANT_ID, default_profile_id: Some(PROFILE_ID) }
}

fn config() -> PayoutsConfig {
    PayoutsConfig {
        payout_eligibility: true,
        default_session_expiry: 900,
        base_url: "https://pay.example.com".to_string(),
    }
}

fn gsm_off() -> GsmConfig {
    GsmConfig { multi_connector: false }
}

fn profile(domain: Option<&str>) -> BusinessProfileRecord {
    BusinessProfileRecord {
        profile_id: PROFILE_ID,
        merchant_id: MERCHANT_ID,
        payout_link_config: Some(BusinessPayoutLinkConfig {
            allowed_domains: vec!["example.com".to_string()],
            domain_name: domain.map(|d| d.to_string()),
            logo: None,
            merchant_name: None,
            theme: None,
        }),
    }
}

fn seeded_store() -> PayoutStore {
    let mut store = PayoutStore::new();
    store.insert_business_profile(profile(None)).unwrap();
    store
}

fn caps(eligibility: bool, recipient: bool, instant: bool, vendor: bool, quote: bool) -> ConnectorCapabilities {
    ConnectorCapabilities {
        eligibility,
        recipient_create: recipient,
        instant_payout: instant,
        vendor_disburse_account_create: vendor,
        quote_required: quote,
    }
}

fn registry_with(name: ConnectorName, c: ConnectorCapabilities) -> ConnectorRegistry {
    let mut r = ConnectorRegistry::new();
    assert!(r.register(RegistryEntry { name, capabilities: c, merchant_connector_id: Some(5) }));
    r
}

fn fallback(name: ConnectorName) -> Vec<RoutableConnectorChoice> {
    vec![RoutableConnectorChoice { connector: name, merchant_connector_id: None }]
}

fn fresh_ids() -> FreshIds {
    FreshIds {
        payout_id: 510,
        address_id: 900,
        client_secret: 12345,
        payout_link_id: 77,
        link_client_secret: 54321,
    }
}

fn bank_data() -> PayoutMethodData {
    PayoutMethodData::Bank { account_number: 12345678, routing_number: 110000000 }
}

fn billing() -> BillingDetails {
    BillingDetails {
        city: Some("Zurich".to_string()),
        country: Some("CH".to_string()),
        line1: Some("Main Street 1".to_string()),
        line2: None,
        line3: None,
        zip: Some("8000".to_string()),
        state: None,
        first_name: Some("Ada".to_string()),
        last_name: Some("Lovelace".to_string()),
        phone_number: None,
        country_code: None,
        email: None,
    }
}

fn create_req(confirm: Option<bool>, method_data: Option<PayoutMethodData>) -> PayoutCreateRequest {
    PayoutCreateRequest {
        payout_id: Some(510),
        amount: Some(1000),
        currency: Some(Currency::Usd),
        customer_id: Some(42),
        name: Some("Ada".to_string()),
        email: Some("ada@example.com".to_string()),
        phone: None,
        phone_country_code: None,
        description: Some("april payout".to_string()),
        payout_type: Some(PayoutType::Bank),
        payout_method_data: method_data,
        payout_token: None,
        billing: Some(billing()),
        recurring: Some(false),
        auto_fulfill: Some(false),
        confirm,
        return_url: None,
        entity_type: None,
        business_country: None,
        business_label: None,
        payout_link: None,
        payout_link_config: None,
        session_expiry: None,
        profile_id: Some(PROFILE_ID),
        priority: None,
        connector: None,
    }
}

fn ok_response(
    status: Option<PayoutStatus>,
    connector_payout_id: Option<&str>,
    payout_eligible: Option<bool>,
    next_step: bool,
) -> ConnectorOutcome {
    ConnectorOutcome::Success(ConnectorResponseData {
        status,
        connector_payout_id: connector_payout_id.map(|s| s.to_string()),
        payout_eligible,
        should_add_next_step_to_process_tracker: next_step,
        error_code: None,
        error_message: None,
    })
}

fn err_response(code: &str, message: &str) -> ConnectorOutcome {
    ConnectorOutcome::Failure(ConnectorErrorResponse {
        code: code.to_string(),
        message: message.to_string(),
    })
}

#[test]
fn create_without_confirm_calls_no_connector() {
    let mut store = seeded_store();
    let mut gw = ConnectorGateway::new(vec![]);
    let registry = registry_with(ConnectorName::Adyenplatform, caps(true, true, true, false, false));
    let req = create_req(Some(false), Some(bank_data()));
    let resp = payouts_create_core(
        &mut store, &mut gw, &registry, &config(), &gsm_off(), &merchant(), &req,
        &ConnectorChoice::Decide, &fallback(ConnectorName::Adyenplatform), &fresh_ids(), 1_000,
    )
    .unwrap();
    assert_eq!(resp.status, PayoutStatus::RequiresConfirmation);
    assert!(gw.log.is_empty());
    // Both records agree in the store.
    let p = store.find_payout(MERCHANT_ID, 510).unwrap();
    let a = store.find_payout_attempt(MERCHANT_ID, 510, 1).unwrap();
    assert_eq!(p.status, a.status);
}

#[test]
fn create_without_method_data_awaits_method_data() {
    let mut store = seeded_store();
    let mut gw = ConnectorGateway::new(vec![]);
    let registry = registry_with(ConnectorName::Adyenplatform, caps(true, true, true, false, false));
    let req = create_req(None, None);
    let resp = payouts_create_core(
        &mut store, &mut gw, &registry, &config(), &gsm_off(), &merchant(), &req,
        &ConnectorChoice::Decide, &fallback(ConnectorName::Adyenplatform), &fresh_ids(), 1_000,
    )
    .unwrap();
    assert_eq!(resp.status, PayoutStatus::RequiresPayoutMethodData);
    assert!(gw.log.is_empty());
}

#[test]
fn instant_connector_skips_creation_call() {
    // Connector supports eligibility, recipient creation and instant payouts.
    let mut store = seeded_store();
    let mut gw = ConnectorGateway::new(vec![
        ok_response(None, None, Some(true), false),
        ok_response(None, Some("cus_1"), None, false),
    ]);
    let registry = registry_with(ConnectorName::Adyenplatform, caps(true, true, true, false, false));
    let req = create_req(Some(true), Some(bank_data()));
    let resp = payouts_create_core(
        &mut store, &mut gw, &registry, &config(), &gsm_off(), &merchant(), &req,
        &ConnectorChoice::Decide, &fallback(ConnectorName::Adyenplatform), &fresh_ids(), 1_000,
    )
    .unwrap();
    assert_eq!(resp.status, PayoutStatus::RequiresFulfillment);
    assert_eq!(gw.log, vec![PayoutOperation::Eligibility, PayoutOperation::RecipientCreate]);
    assert!(!gw.log.contains(&PayoutOperation::Create));
    let p = store.find_payout(MERCHANT_ID, 510).unwrap();
    let a = store.find_payout_attempt(MERCHANT_ID, 510, 1).unwrap();
    assert_eq!(p.status, PayoutStatus::RequiresFulfillment);
    assert_eq!(a.status, PayoutStatus::RequiresFulfillment);
    // The local instant-creation transition resets the eligibility flag.
    assert_eq!(a.is_eligible, None);
}

#[test]
fn instant_connector_with_auto_fulfill_reaches_terminal_state() {
    let mut store = seeded_store();
    let mut gw = ConnectorGateway::new(vec![
        ok_response(None, None, Some(true), false),
        ok_response(None, Some("cus_1"), None, false),
        ok_response(Some(PayoutStatus::Success), Some("po_99"), None, false),
    ]);
    let registry = registry_with(ConnectorName::Adyenplatform, caps(true, true, true, false, false));
    let mut req = create_req(Some(true), Some(bank_data()));
    req.auto_fulfill = Some(true);
    let resp = payouts_create_core(
        &mut store, &mut gw, &registry, &config(), &gsm_off(), &merchant(), &req,
        &ConnectorChoice::Decide, &fallback(ConnectorName::Adyenplatform), &fresh_ids(), 1_000,
    )
    .unwrap();
    assert_eq!(resp.status, PayoutStatus::Success);
    assert_eq!(
        gw.log,
        vec![PayoutOperation::Eligibility, PayoutOperation::RecipientCreate, PayoutOperation::Fulfill],
    );
    assert_eq!(resp.connector_transaction_id.as_deref(), Some("po_99"));
}

#[test]
fn ineligible_answer_fails_the_pass_and_stops_it() {
    let mut store = seeded_store();
    let mut gw = ConnectorGateway::new(vec![ok_response(None, None, Some(false), false)]);
    let registry = registry_with(ConnectorName::Adyenplatform, caps(true, true, false, false, false));
    let req = create_req(Some(true), Some(bank_data()));
    let err = payouts_create_core(
        &mut store, &mut gw, &registry, &config(), &gsm_off(), &merchant(), &req,
        &ConnectorChoice::Decide, &fallback(ConnectorName::Adyenplatform), &fresh_ids(), 1_000,
    )
    .unwrap_err();
    match err {
        PayoutError::PayoutFailed { status, .. } => assert_eq!(status, PayoutStatus::Ineligible),
        other => panic!("expected PayoutFailed, got {:?}", other),
    }
    // Only the eligibility call ran; no recipient/creation sub-flow followed.
    assert_eq!(gw.log, vec![PayoutOperation::Eligibility]);
    let a = store.find_payout_attempt(MERCHANT_ID, 510, 1).unwrap();
    assert_eq!(a.status, PayoutStatus::Ineligible);
    assert_eq!(a.is_eligible, Some(false));
    let p = store.find_payout(MERCHANT_ID, 510).unwrap();
    assert_eq!(p.status, PayoutStatus::Ineligible);
}

#[test]
fn connector_failure_is_persisted_not_crashed() {
    let mut store = seeded_store();
    let mut gw = ConnectorGateway::new(vec![err_response("E123", "insufficient balance")]);
    let registry = registry_with(ConnectorName::Wise, caps(false, false, false, false, false));
    let req = create_req(Some(true), Some(bank_data()));
    let resp = payouts_create_core(
        &mut store, &mut gw, &registry, &config(), &gsm_off(), &merchant(), &req,
        &ConnectorChoice::Decide, &fallback(ConnectorName::Wise), &fresh_ids(), 1_000,
    )
    .unwrap();
    assert_eq!(resp.status, PayoutStatus::Failed);
    assert_eq!(resp.error_code.as_deref(), Some("E123"));
    assert_eq!(resp.error_message.as_deref(), Some("insufficient balance"));
    assert_eq!(gw.log, vec![PayoutOperation::Create]);
}

#[test]
fn terminal_payout_cannot_be_confirmed_again() {
    let mut store = seeded_store();
    let mut gw = ConnectorGateway::new(vec![]);
    let registry = registry_with(ConnectorName::Adyenplatform, caps(false, false, false, false, false));
    let req = create_req(Some(false), Some(bank_data()));
    payouts_create_core(
        &mut store, &mut gw, &registry, &config(), &gsm_off(), &merchant(), &req,
        &ConnectorChoice::Decide, &fallback(ConnectorName::Adyenplatform), &fresh_ids(), 1_000,
    )
    .unwrap();
    // Cancel locally, then try to confirm: the terminal payout is rejected.
    let action = PayoutActionRequest { payout_id: 510 };
    let cancelled = payouts_cancel_core(&mut store, &mut gw, &merchant(), &action).unwrap();
    assert_eq!(cancelled.status, PayoutStatus::Cancelled);
    let before_attempt = store.find_payout_attempt(MERCHANT_ID, 510, 1).unwrap();
    let err = payouts_confirm_core(
        &mut store, &mut gw, &registry, &config(), &gsm_off(), &merchant(),
        &create_req(Some(true), Some(bank_data())), &ConnectorChoice::Decide,
        &fallback(ConnectorName::Adyenplatform), 1_000,
    )
    .unwrap_err();
    assert!(matches!(err, PayoutError::InvalidRequestData { .. }));
    // Nothing was mutated and no connector was called.
    let after_attempt = store.find_payout_attempt(MERCHANT_ID, 510, 1).unwrap();
    assert_eq!(after_attempt.status, before_attempt.status);
    assert!(gw.log.is_empty());
}

#[test]
fn terminal_payout_cannot_be_updated() {
    let mut store = seeded_store();
    let mut gw = ConnectorGateway::new(vec![]);
    let registry = registry_with(ConnectorName::Adyenplatform, caps(false, false, false, false, false));
    payouts_create_core(
        &mut store, &mut gw, &registry, &config(), &gsm_off(), &merchant(),
        &create_req(Some(false), Some(bank_data())), &ConnectorChoice::Decide,
        &fallback(ConnectorName::Adyenplatform), &fresh_ids(), 1_000,
    )
    .unwrap();
    payouts_cancel_core(&mut store, &mut gw, &merchant(), &PayoutActionRequest { payout_id: 510 })
        .unwrap();
    let err = payouts_update_core(
        &mut store, &mut gw, &registry, &config(), &gsm_off(), &merchant(),
        &create_req(None, None), &ConnectorChoice::Decide,
        &fallback(ConnectorName::Adyenplatform), 1_000,
    )
    .unwrap_err();
    assert!(matches!(err, PayoutError::InvalidRequestData { .. }));
}

#[test]
fn pre_connector_cancellation_is_local() {
    let mut store = seeded_store();
    let mut gw = ConnectorGateway::new(vec![]);
    let registry = registry_with(ConnectorName::Adyenplatform, caps(false, false, false, false, false));
    payouts_create_core(
        &mut store, &mut gw, &registry, &config(), &gsm_off(), &merchant(),
        &create_req(Some(false), Some(bank_data())), &ConnectorChoice::Decide,
        &fallback(ConnectorName::Adyenplatform), &fresh_ids(), 1_000,
    )
    .unwrap();
    let resp = payouts_cancel_core(
        &mut store, &mut gw, &merchant(), &PayoutActionRequest { payout_id: 510 },
    )
    .unwrap();
    assert_eq!(resp.status, PayoutStatus::Cancelled);
    assert_eq!(resp.error_message.as_deref(), Some("Cancelled by user"));
    assert!(gw.log.is_empty());
    // Cancelling the now-terminal payout is rejected.
    let err = payouts_cancel_core(
        &mut store, &mut gw, &merchant(), &PayoutActionRequest { payout_id: 510 },
    )
    .unwrap_err();
    assert!(matches!(err, PayoutError::InvalidRequestData { .. }));
}

#[test]
fn deferred_recipient_creation_schedules_one_task() {
    let mut store = seeded_store();
    let now: u64 = 50_000;
    let mut gw = ConnectorGateway::new(vec![
        ok_response(None, None, Some(true), false),
        ok_response(None, Some("acct_1"), None, true),
    ]);
    let registry = registry_with(ConnectorName::Stripe, caps(true, true, false, false, false));
    let req = create_req(Some(true), Some(bank_data()));
    let resp = payouts_create_core(
        &mut store, &mut gw, &registry, &config(), &gsm_off(), &merchant(), &req,
        &ConnectorChoice::Decide, &fallback(ConnectorName::Stripe), &fresh_ids(), now,
    )
    .unwrap();
    // The pass terminated after scheduling the continuation.
    assert_eq!(resp.status, PayoutStatus::RequiresVendorAccountCreation);
    assert_eq!(gw.log, vec![PayoutOperation::Eligibility, PayoutOperation::RecipientCreate]);
    assert_eq!(store.tasks.len(), 1);
    assert_eq!(store.tasks[0].payout_id, 510);
    assert_eq!(store.tasks[0].schedule_time, now + ACCOUNT_ONBOARDING_DELAY_SECONDS);
    // The recipient registration was recorded on the customer.
    let customer = store.find_customer(MERCHANT_ID, 42).unwrap();
    assert_eq!(customer.connector_customers.len(), 1);
    assert_eq!(customer.connector_customers[0].connector_customer_id, "acct_1");
}

#[test]
fn multi_connector_failover_tries_the_next_candidate() {
    let mut store = seeded_store();
    let mut gw = ConnectorGateway::new(vec![
        err_response("E1", "first connector is down"),
        ok_response(Some(PayoutStatus::Success), Some("po_2"), None, false),
    ]);
    let mut registry = registry_with(ConnectorName::Wise, caps(false, false, false, false, false));
    assert!(registry.register(RegistryEntry {
        name: ConnectorName::Paypal,
        capabilities: caps(false, false, false, false, false),
        merchant_connector_id: None,
    }));
    let gsm = GsmConfig { multi_connector: true };
    let routing = ConnectorChoice::StraightThrough(vec![
        RoutableConnectorChoice { connector: ConnectorName::Wise, merchant_connector_id: None },
        RoutableConnectorChoice { connector: ConnectorName::Paypal, merchant_connector_id: None },
    ]);
    let resp = payouts_create_core(
        &mut store, &mut gw, &registry, &config(), &gsm, &merchant(),
        &create_req(Some(true), Some(bank_data())), &routing, &vec![], &fresh_ids(), 1_000,
    )
    .unwrap();
    assert_eq!(resp.status, PayoutStatus::Success);
    assert_eq!(resp.connector, Some(ConnectorName::Paypal));
    assert_eq!(gw.log, vec![PayoutOperation::Create, PayoutOperation::Create]);
    // The failover ran on a fresh attempt.
    let p = store.find_payout(MERCHANT_ID, 510).unwrap();
    assert_eq!(p.attempt_count, 2);
    let first = store.find_payout_attempt(MERCHANT_ID, 510, 1).unwrap();
    assert_eq!(first.status, PayoutStatus::Failed);
    let second = store.find_payout_attempt(MERCHANT_ID, 510, 2).unwrap();
    assert_eq!(second.status, PayoutStatus::Success);
}

#[test]
fn quote_precedes_creation_when_required() {
    let mut store = seeded_store();
    let mut gw = ConnectorGateway::new(vec![
        ok_response(None, Some("quote_1"), None, false),
        ok_response(Some(PayoutStatus::RequiresFulfillment), Some("po_1"), None, false),
    ]);
    let registry = registry_with(ConnectorName::Wise, caps(false, false, false, false, true));
    let resp = payouts_create_core(
        &mut store, &mut gw, &registry, &config(), &gsm_off(), &merchant(),
        &create_req(Some(true), Some(bank_data())), &ConnectorChoice::Decide,
        &fallback(ConnectorName::Wise), &fresh_ids(), 1_000,
    )
    .unwrap();
    assert_eq!(resp.status, PayoutStatus::RequiresFulfillment);
    assert_eq!(gw.log, vec![PayoutOperation::Quote, PayoutOperation::Create]);
}

#[test]
fn quote_failure_fails_the_pass() {
    let mut store = seeded_store();
    let mut gw = ConnectorGateway::new(vec![err_response("Q1", "no quote available")]);
    let registry = registry_with(ConnectorName::Wise, caps(false, false, false, false, true));
    let err = payouts_create_core(
        &mut store, &mut gw, &registry, &config(), &gsm_off(), &merchant(),
        &create_req(Some(true), Some(bank_data())), &ConnectorChoice::Decide,
        &fallback(ConnectorName::Wise), &fresh_ids(), 1_000,
    )
    .unwrap_err();
    assert!(matches!(err, PayoutError::PayoutFailed { status: PayoutStatus::Failed, .. }));
    assert_eq!(gw.log, vec![PayoutOperation::Quote]);
    let a = store.find_payout_attempt(MERCHANT_ID, 510, 1).unwrap();
    assert_eq!(a.status, PayoutStatus::Failed);
    assert_eq!(a.error_code.as_deref(), Some("Q1"));
}

#[test]
fn fulfill_core_completes_a_created_payout() {
    let mut store = seeded_store();
    let mut gw = ConnectorGateway::new(vec![]);
    let registry = registry_with(ConnectorName::Adyenplatform, caps(false, false, true, false, false));
    // Instant creation leaves the payout awaiting fulfillment.
    let mut req = create_req(Some(true), Some(bank_data()));
    req.payout_token = Some(4242);
    payouts_create_core(
        &mut store, &mut gw, &registry, &config(), &gsm_off(), &merchant(), &req,
        &ConnectorChoice::Decide, &fallback(ConnectorName::Adyenplatform), &fresh_ids(), 1_000,
    )
    .unwrap();
    let mut gw2 = ConnectorGateway::new(vec![ok_response(
        Some(PayoutStatus::Success),
        Some("po_1"),
        None,
        false,
    )]);
    let resp = payouts_fulfill_core(
        &mut store, &mut gw2, &merchant(), &PayoutActionRequest { payout_id: 510 },
    )
    .unwrap();
    assert_eq!(resp.status, PayoutStatus::Success);
    assert_eq!(gw2.log, vec![PayoutOperation::Fulfill]);
}

#[test]
fn fulfill_core_rejects_wrong_status() {
    let mut store = seeded_store();
    let mut gw = ConnectorGateway::new(vec![]);
    let registry = registry_with(ConnectorName::Adyenplatform, caps(false, false, false, false, false));
    payouts_create_core(
        &mut store, &mut gw, &registry, &config(), &gsm_off(), &merchant(),
        &create_req(Some(false), Some(bank_data())), &ConnectorChoice::Decide,
        &fallback(ConnectorName::Adyenplatform), &fresh_ids(), 1_000,
    )
    .unwrap();
    let err = payouts_fulfill_core(
        &mut store, &mut gw, &merchant(), &PayoutActionRequest { payout_id: 510 },
    )
    .unwrap_err();
    assert!(matches!(err, PayoutError::InvalidRequestData { .. }));
}

#[test]
fn retrieve_with_force_sync_asks_the_connector() {
    let mut store = seeded_store();
    let mut gw = ConnectorGateway::new(vec![]);
    let registry = registry_with(ConnectorName::Adyenplatform, caps(false, false, true, false, false));
    payouts_create_core(
        &mut store, &mut gw, &registry, &config(), &gsm_off(), &merchant(),
        &create_req(Some(true), Some(bank_data())), &ConnectorChoice::Decide,
        &fallback(ConnectorName::Adyenplatform), &fresh_ids(), 1_000,
    )
    .unwrap();
    let mut gw2 = ConnectorGateway::new(vec![ok_response(
        Some(PayoutStatus::Success),
        Some("po_1"),
        None,
        false,
    )]);
    let resp = payouts_retrieve_core(
        &mut store, &mut gw2, &registry, &merchant(),
        &PayoutRetrieveRequest { payout_id: 510, force_sync: Some(true), merchant_id: Some(MERCHANT_ID) },
        &vec![],
    )
    .unwrap();
    assert_eq!(resp.status, PayoutStatus::Success);
    assert_eq!(gw2.log, vec![PayoutOperation::Sync]);
    // Without force_sync the stored state is reported and nothing is called.
    let mut gw3 = ConnectorGateway::new(vec![]);
    let resp2 = payouts_retrieve_core(
        &mut store, &mut gw3, &registry, &merchant(),
        &PayoutRetrieveRequest { payout_id: 510, force_sync: None, merchant_id: None },
        &vec![],
    )
    .unwrap();
    assert_eq!(resp2.status, PayoutStatus::Success);
    assert!(gw3.log.is_empty());
}

#[test]
fn duplicate_payout_id_is_rejected() {
    let mut store = seeded_store();
    let mut gw = ConnectorGateway::new(vec![]);
    let registry = registry_with(ConnectorName::Adyenplatform, caps(false, false, false, false, false));
    let req = create_req(Some(false), Some(bank_data()));
    payouts_create_core(
        &mut store, &mut gw, &registry, &config(), &gsm_off(), &merchant(), &req,
        &ConnectorChoice::Decide, &fallback(ConnectorName::Adyenplatform), &fresh_ids(), 1_000,
    )
    .unwrap();
    let err = payouts_create_core(
        &mut store, &mut gw, &registry, &config(), &gsm_off(), &merchant(),
        &create_req(Some(false), Some(bank_data())), &ConnectorChoice::Decide,
        &fallback(ConnectorName::Adyenplatform), &fresh_ids(), 1_000,
    )
    .unwrap_err();
    assert!(matches!(err, PayoutError::DuplicatePayout { payout_id: 510 }));
}

#[test]
fn unknown_payout_is_not_found() {
    let mut store = seeded_store();
    let mut gw = ConnectorGateway::new(vec![]);
    let err = payouts_cancel_core(
        &mut store, &mut gw, &merchant(), &PayoutActionRequest { payout_id: 999 },
    )
    .unwrap_err();
    assert!(matches!(err, PayoutError::PayoutNotFound));
}

#[test]
fn missing_billing_address_is_rejected() {
    let mut store = seeded_store();
    let mut gw = ConnectorGateway::new(vec![]);
    let registry = registry_with(ConnectorName::Adyenplatform, caps(false, false, false, false, false));
    let mut req = create_req(Some(false), Some(bank_data()));
    req.billing = None;
    let err = payouts_create_core(
        &mut store, &mut gw, &registry, &config(), &gsm_off(), &merchant(), &req,
        &ConnectorChoice::Decide, &fallback(ConnectorName::Adyenplatform), &fresh_ids(), 1_000,
    )
    .unwrap_err();
    match err {
        PayoutError::MissingRequiredField { field_name } => assert_eq!(field_name, "billing.address"),
        other => panic!("expected MissingRequiredField, got {:?}", other),
    }
}

#[test]
fn unknown_business_profile_is_rejected() {
    let mut store = seeded_store();
    let mut gw = ConnectorGateway::new(vec![]);
    let registry = registry_with(ConnectorName::Adyenplatform, caps(false, false, false, false, false));
    let mut req = create_req(Some(false), Some(bank_data()));
    req.profile_id = Some(4040);
    let err = payouts_create_core(
        &mut store, &mut gw, &registry, &config(), &gsm_off(), &merchant(), &req,
        &ConnectorChoice::Decide, &fallback(ConnectorName::Adyenplatform), &fresh_ids(), 1_000,
    )
    .unwrap_err();
    assert!(matches!(err, PayoutError::BusinessProfileNotFound { profile_id: 4040 }));
}

#[test]
fn default_ineligibility_blocks_the_pass() {
    // No eligibility support, no verdict on file, and the deployment treats
    // unknown eligibility as ineligible.
    let mut store = seeded_store();
    let mut gw = ConnectorGateway::new(vec![]);
    let registry = registry_with(ConnectorName::Wise, caps(false, false, false, false, false));
    let strict = PayoutsConfig {
        payout_eligibility: false,
        default_session_expiry: 900,
        base_url: "https://pay.example.com".to_string(),
    };
    let err = payouts_create_core(
        &mut store, &mut gw, &registry, &strict, &gsm_off(), &merchant(),
        &create_req(Some(true), Some(bank_data())), &ConnectorChoice::Decide,
        &fallback(ConnectorName::Wise), &fresh_ids(), 1_000,
    )
    .unwrap_err();
    assert!(matches!(err, PayoutError::PayoutFailed { .. }));
    assert!(gw.log.is_empty());
}

#[test]
fn empty_connector_queue_is_an_internal_error() {
    let mut q = ConnectorQueue::new(vec![]);
    assert!(matches!(get_next_connector(&mut q), Err(PayoutError::InternalServerError)));
}

#[test]
fn update_core_applies_the_new_amount() {
    let mut store = seeded_store();
    let mut gw = ConnectorGateway::new(vec![]);
    let registry = registry_with(ConnectorName::Adyenplatform, caps(false, false, false, false, false));
    payouts_create_core(
        &mut store, &mut gw, &registry, &config(), &gsm_off(), &merchant(),
        &create_req(Some(false), Some(bank_data())), &ConnectorChoice::Decide,
        &fallback(ConnectorName::Adyenplatform), &fresh_ids(), 1_000,
    )
    .unwrap();
    let mut update = create_req(Some(false), Some(bank_data()));
    update.amount = Some(2500);
    let resp = payouts_update_core(
        &mut store, &mut gw, &registry, &config(), &gsm_off(), &merchant(), &update,
        &ConnectorChoice::Decide, &fallback(ConnectorName::Adyenplatform), 1_000,
    )
    .unwrap();
    assert_eq!(resp.amount, 2500);
    assert_eq!(resp.status, PayoutStatus::RequiresConfirmation);
    assert!(gw.log.is_empty());
}

#[test]
fn list_core_pages_matching_payouts() {
    let mut store = seeded_store();
    let mut gw = ConnectorGateway::new(vec![]);
    let registry = registry_with(ConnectorName::Adyenplatform, caps(false, false, false, false, false));
    for (pid, cid) in [(601u64, 42u64), (602, 42), (603, 43)] {
        let mut req = create_req(Some(false), Some(bank_data()));
        req.payout_id = Some(pid);
        req.customer_id = Some(cid);
        let mut fresh = fresh_ids();
        fresh.address_id = 900 + pid;
        payouts_create_core(
            &mut store, &mut gw, &registry, &config(), &gsm_off(), &merchant(), &req,
            &ConnectorChoice::Decide, &fallback(ConnectorName::Adyenplatform), &fresh, 1_000,
        )
        .unwrap();
    }
    let all = payouts_core::lists::payouts_list_core(
        &store,
        &merchant(),
        &PayoutListConstraints { customer_id: None, limit: None, created_after: None, created_before: None },
    )
    .unwrap();
    assert_eq!(all.size, 3);
    let limited = payouts_core::lists::payouts_list_core(
        &store,
        &merchant(),
        &PayoutListConstraints { customer_id: None, limit: Some(2), created_after: None, created_before: None },
    )
    .unwrap();
    assert_eq!(limited.size, 2);
    let for_customer = payouts_core::lists::payouts_list_core(
        &store,
        &merchant(),
        &PayoutListConstraints { customer_id: Some(43), limit: None, created_after: None, created_before: None },
    )
    .unwrap();
    assert_eq!(for_customer.size, 1);
    assert_eq!(for_customer.data[0].payout_id, 603);
    let too_big = payouts_core::lists::payouts_list_core(
        &store,
        &merchant(),
        &PayoutListConstraints { customer_id: None, limit: Some(101), created_after: None, created_before: None },
    );
    assert!(matches!(too_big, Err(PayoutError::InvalidRequestData { .. })));
}

#[test]
fn filtered_list_and_available_filters() {
    let mut store = seeded_store();
    let mut gw = ConnectorGateway::new(vec![]);
    let registry = registry_with(ConnectorName::Adyenplatform, caps(false, false, false, false, false));
    for (pid, currency) in [(701u64, Currency::Usd), (702, Currency::Eur)] {
        let mut req = create_req(Some(false), Some(bank_data()));
        req.payout_id = Some(pid);
        req.currency = Some(currency);
        let mut fresh = fresh_ids();
        fresh.address_id = 900 + pid;
        payouts_create_core(
            &mut store, &mut gw, &registry, &config(), &gsm_off(), &merchant(), &req,
            &ConnectorChoice::Decide, &fallback(ConnectorName::Adyenplatform), &fresh, 1_000,
        )
        .unwrap();
    }
    let eur_only = payouts_core::lists::payouts_filtered_list_core(
        &store,
        &merchant(),
        &PayoutListFilterConstraints {
            customer_id: None,
            limit: 10,
            currency: Some(Currency::Eur),
            status: None,
            payout_method: None,
            created_after: None,
            created_before: None,
        },
    )
    .unwrap();
    assert_eq!(eur_only.size, 1);
    assert_eq!(eur_only.data[0].payout_id, 702);
    let filters = payouts_core::lists::payouts_list_available_filters_core(
        &store,
        &merchant(),
        0,
        None,
    );
    assert_eq!(filters.currency.len(), 2);
    assert!(filters.currency.contains(&Currency::Usd));
    assert!(filters.currency.contains(&Currency::Eur));
    assert_eq!(filters.status, vec![PayoutStatus::RequiresConfirmation]);
    assert_eq!(filters.payout_method, vec![PayoutType::Bank]);
}
