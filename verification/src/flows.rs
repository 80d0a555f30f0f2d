//! The sub-flows of one orchestration pass. Each sub-flow executes at most
//! one connector operation, persists the attempt and then the payout with the
//! resulting status, and surfaces an error-classified result as a structured
//! `PayoutFailed` outcome.

use vstd::prelude::*;

use crate::api::PayoutsConfig;
use crate::connector::{
    ops_since, ConnectorData, ConnectorGateway, ConnectorOutcome, ConnectorResponseData,
    PayoutOperation,
};
use crate::error::PayoutError;
use crate::records::{
    AddressRecord, BusinessProfileRecord, ConnectorCustomerEntry, CustomerRecord,
    PayoutAttemptRecord, PayoutLinkRecord, PayoutsRecord, ScheduledTaskRecord, TaskRunner,
};
use crate::status::{
    is_creation_eligible, is_payout_err_state, spec_is_creation_eligible, spec_is_err_state,
    PayoutStatus,
};
use crate::store::PayoutStore;
use crate::types::{clone_opt_string, ConnectorName, PayoutMethodData};

verus! {

/// Seconds between a recipient-creation answer that defers vendor-account
/// provisioning and the scheduled follow-up task.
pub const ACCOUNT_ONBOARDING_DELAY_SECONDS: u64 = 600;

/// The in-memory aggregate one orchestration pass owns.
pub struct PayoutData {
    pub billing_address: Option<AddressRecord>,
    pub business_profile: BusinessProfileRecord,
    pub customer_details: Option<CustomerRecord>,
    pub payouts: PayoutsRecord,
    pub payout_attempt: PayoutAttemptRecord,
    pub payout_method_data: Option<PayoutMethodData>,
    pub profile_id: u64,
    /// Once set, every remaining sub-flow of the pass is skipped; the rest of
    /// the work belongs to a deferred continuation.
    pub should_terminate: bool,
    pub payout_link: Option<PayoutLinkRecord>,
}

/// The aggregate mirrors the store: the payout and its current attempt are
/// the persisted records, and the attempt is the payout's current one.
pub open spec fn aggregate_consistent(store: PayoutStore, data: PayoutData) -> bool {
    &&& data.payout_attempt.merchant_id == data.payouts.merchant_id
    &&& data.payout_attempt.payout_id == data.payouts.payout_id
    &&& data.payout_attempt.attempt_number == data.payouts.attempt_count
    &&& store.payouts@.contains(data.payouts)
    &&& store.attempts@.contains(data.payout_attempt)
}

/// Attempt/payout status consistency: both records carry one status.
pub open spec fn statuses_agree(data: PayoutData) -> bool {
    data.payout_attempt.status == data.payouts.status
}

/// The attempt after a status update.
pub open spec fn attempt_status_update(
    a: PayoutAttemptRecord,
    status: PayoutStatus,
    connector_payout_id: Option<String>,
    error_code: Option<String>,
    error_message: Option<String>,
    is_eligible: Option<bool>,
) -> PayoutAttemptRecord {
    PayoutAttemptRecord { status, connector_payout_id, error_code, error_message, is_eligible, ..a }
}

/// The payout after a status update.
pub open spec fn payouts_status_update(p: PayoutsRecord, status: PayoutStatus) -> PayoutsRecord {
    PayoutsRecord { status, ..p }
}

/// Store regions the payout sub-flows never write.
pub open spec fn collateral_unchanged(a: PayoutStore, b: PayoutStore) -> bool {
    a.addresses == b.addresses && a.profiles == b.profiles && a.links == b.links
}

/// Persists one status transition: the attempt first, then the payout, both
/// under the same status, and mirrors both into the aggregate.
pub fn persist_status_update(
    store: &mut PayoutStore,
    data: &mut PayoutData,
    status: PayoutStatus,
    connector_payout_id: Option<String>,
    error_code: Option<String>,
    error_message: Option<String>,
    is_eligible: Option<bool>,
)
    requires
        old(store).wf(),
        aggregate_consistent(*old(store), *old(data)),
    ensures
        final(store).wf(),
        aggregate_consistent(*final(store), *final(data)),
        final(data).payout_attempt.connector == old(data).payout_attempt.connector,
        final(data).payouts.payout_id == old(data).payouts.payout_id,
        final(data).payouts.merchant_id == old(data).payouts.merchant_id,
        final(data).payout_attempt == attempt_status_update(
            old(data).payout_attempt,
            status,
            connector_payout_id,
            error_code,
            error_message,
            is_eligible,
        ),
        final(data).payouts == payouts_status_update(old(data).payouts, status),
        statuses_agree(*final(data)),
        final(data).billing_address == old(data).billing_address,
        final(data).business_profile == old(data).business_profile,
        final(data).customer_details == old(data).customer_details,
        final(data).payout_method_data == old(data).payout_method_data,
        final(data).profile_id == old(data).profile_id,
        final(data).should_terminate == old(data).should_terminate,
        final(data).payout_link == old(data).payout_link,
        final(store).customers == old(store).customers,
        final(store).tasks == old(store).tasks,
        final(store).vault == old(store).vault,
        collateral_unchanged(*old(store), *final(store)),
        final(store).payouts@.len() == old(store).payouts@.len(),
        final(store).attempts@.len() == old(store).attempts@.len(),
{
    let new_attempt = PayoutAttemptRecord {
        status,
        connector_payout_id,
        error_code,
        error_message,
        is_eligible,
        ..data.payout_attempt.duplicate()
    };
    proof {
        let a = data.payout_attempt;
        assert(store.attempts@.contains(a));
        let i = choose|i: int| 0 <= i < store.attempts@.len() && store.attempts@[i] == a;
        assert(crate::store::attempt_key_matches(
            store.attempts@[i],
            new_attempt.merchant_id,
            new_attempt.payout_id,
            new_attempt.attempt_number,
        ));
        assert(store.has_attempt(
            new_attempt.merchant_id,
            new_attempt.payout_id,
            new_attempt.attempt_number,
        ));
    }
    store.replace_payout_attempt(&new_attempt);
    data.payout_attempt = new_attempt;
    let new_payouts = PayoutsRecord { status, ..data.payouts.duplicate() };
    proof {
        let p = data.payouts;
        assert(store.payouts@.contains(p));
        let i = choose|i: int| 0 <= i < store.payouts@.len() && store.payouts@[i] == p;
        assert(crate::store::payout_key_matches(
            store.payouts@[i],
            new_payouts.merchant_id,
            new_payouts.payout_id,
        ));
        assert(store.has_payout(new_payouts.merchant_id, new_payouts.payout_id));
    }
    store.replace_payout(&new_payouts);
    data.payouts = new_payouts;
}

/// The head of the outcome queue is a successful response.
pub open spec fn head_outcome_is_success(gw: ConnectorGateway) -> bool {
    gw.outcomes@.len() > 0 && gw.outcomes@[0] is Success
}

/// The successful response at the head of the outcome queue.
pub open spec fn head_success(gw: ConnectorGateway) -> ConnectorResponseData {
    gw.outcomes@[0]->Success_0
}

/// The failure at the head of the outcome queue.
pub open spec fn head_failure(gw: ConnectorGateway) -> crate::connector::ConnectorErrorResponse {
    gw.outcomes@[0]->Failure_0
}

/// The outcome queue after one dispatch.
pub open spec fn queue_after_one(gw: ConnectorGateway) -> Seq<ConnectorOutcome> {
    if gw.outcomes@.len() > 0 {
        gw.outcomes@.drop_first()
    } else {
        gw.outcomes@
    }
}

/// A benign connector answer: success, not ineligible, no status override,
/// and no deferred continuation.
pub open spec fn outcome_benign(o: ConnectorOutcome) -> bool {
    match o {
        ConnectorOutcome::Success(resp) => resp.payout_eligible != Some(false) && resp.status
            is None && !resp.should_add_next_step_to_process_tracker,
        ConnectorOutcome::Failure(_) => false,
    }
}

/// Every queued answer is benign.
pub open spec fn benign_queue(gw: ConnectorGateway) -> bool {
    forall|k: int| 0 <= k < gw.outcomes@.len() ==> outcome_benign(#[trigger] gw.outcomes@[k])
}

/// The position of an operation in the fixed sub-flow order of a pass.
pub open spec fn op_rank(op: PayoutOperation) -> int {
    match op {
        PayoutOperation::Eligibility => 0,
        PayoutOperation::RecipientCreate => 1,
        PayoutOperation::RecipientAccountCreate => 2,
        PayoutOperation::Quote => 3,
        PayoutOperation::Create => 4,
        PayoutOperation::Fulfill => 5,
        PayoutOperation::Cancel => 6,
        PayoutOperation::Sync => 7,
    }
}

/// The status a pass of benign answers ends in: a creation-eligible payout on
/// an instant connector moves to RequiresFulfillment; everything else keeps
/// its status.
pub open spec fn benign_pass_status(
    caps: crate::connector::ConnectorCapabilities,
    current: PayoutStatus,
) -> PayoutStatus {
    if spec_is_creation_eligible(current) && caps.instant_payout {
        PayoutStatus::RequiresFulfillment
    } else {
        current
    }
}

/// Status an eligibility answer resolves to: ineligible method data ends the
/// payout as Ineligible; otherwise the connector's status, or the current one
/// when the connector reported none.
pub open spec fn eligibility_result_status(
    resp: ConnectorResponseData,
    current: PayoutStatus,
) -> PayoutStatus {
    if resp.payout_eligible == Some(false) {
        PayoutStatus::Ineligible
    } else {
        match resp.status {
            Some(s) => s,
            None => current,
        }
    }
}

/// Status any other successful answer resolves to: the connector's, or the
/// current one when the connector reported none.
pub open spec fn response_status(resp: ConnectorResponseData, current: PayoutStatus) -> PayoutStatus {
    match resp.status {
        Some(s) => s,
        None => current,
    }
}

/// Calls the connector's eligibility operation and persists the outcome.
///
/// On a successful answer the resolved status is persisted together with the
/// reported eligibility flag; an error-classified resolved status is surfaced
/// as `PayoutFailed`. On a connector failure the payout is persisted as
/// Failed with the connector's code and message, eligibility false, and the
/// failure is reported through the persisted state, not as an error.
pub fn check_payout_eligibility(
    store: &mut PayoutStore,
    gw: &mut ConnectorGateway,
    data: &mut PayoutData,
) -> (r: Result<(), PayoutError>)
    requires
        old(store).wf(),
        aggregate_consistent(*old(store), *old(data)),
    ensures
        final(store).wf(),
        aggregate_consistent(*final(store), *final(data)),
        final(data).payout_attempt.connector == old(data).payout_attempt.connector,
        final(data).payouts.payout_id == old(data).payouts.payout_id,
        final(data).payouts.merchant_id == old(data).payouts.merchant_id,
        final(gw).log@ == old(gw).log@.push(PayoutOperation::Eligibility),
        final(gw).outcomes@ == queue_after_one(*old(gw)),
        statuses_agree(*final(data)),
        final(data).should_terminate == old(data).should_terminate,
        final(data).payout_method_data == old(data).payout_method_data,
        final(store).customers == old(store).customers,
        final(store).tasks == old(store).tasks,
        final(store).vault == old(store).vault,
        collateral_unchanged(*old(store), *final(store)),
        head_outcome_is_success(*old(gw)) ==> ({
            let resp = head_success(*old(gw));
            let status = eligibility_result_status(resp, old(data).payout_attempt.status);
            &&& final(data).payout_attempt == attempt_status_update(
                old(data).payout_attempt,
                status,
                resp.connector_payout_id,
                None,
                None,
                resp.payout_eligible,
            )
            &&& final(data).payouts == payouts_status_update(old(data).payouts, status)
            &&& (r is Ok <==> !spec_is_err_state(status))
            &&& (r matches Err(e) ==> e matches PayoutError::PayoutFailed { status: s, .. }
                && s == status)
        }),
        !head_outcome_is_success(*old(gw)) ==> ({
            &&& final(data).payout_attempt.status == PayoutStatus::Failed
            &&& final(data).payouts == payouts_status_update(old(data).payouts, PayoutStatus::Failed)
            &&& final(data).payout_attempt.is_eligible == Some(false)
            &&& final(data).payout_attempt.error_code is Some
            &&& final(data).payout_attempt.error_message is Some
            &&& old(gw).outcomes@.len() > 0 ==> final(data).payout_attempt == attempt_status_update(
                old(data).payout_attempt,
                PayoutStatus::Failed,
                old(data).payout_attempt.connector_payout_id,
                Some(old(gw).outcomes@[0]->Failure_0.code),
                Some(old(gw).outcomes@[0]->Failure_0.message),
                Some(false),
            )
            &&& r is Ok
        }),
{
    let outcome = gw.dispatch(PayoutOperation::Eligibility);
    match outcome {
        ConnectorOutcome::Success(resp) => {
            let status = if matches!(resp.payout_eligible, Some(false)) {
                PayoutStatus::Ineligible
            } else {
                match resp.status {
                    Some(s) => s,
                    None => data.payout_attempt.status,
                }
            };
            persist_status_update(
                store,
                data,
                status,
                resp.connector_payout_id,
                None,
                None,
                resp.payout_eligible,
            );
            if is_payout_err_state(status) {
                return Err(
                    PayoutError::PayoutFailed {
                        status,
                        error_code: clone_opt_string(&data.payout_attempt.error_code),
                        error_message: clone_opt_string(&data.payout_attempt.error_message),
                    },
                );
            }
            Ok(())
        },
        ConnectorOutcome::Failure(err) => {
            let kept_connector_payout_id = clone_opt_string(&data.payout_attempt.connector_payout_id);
            persist_status_update(
                store,
                data,
                PayoutStatus::Failed,
                kept_connector_payout_id,
                Some(err.code),
                Some(err.message),
                Some(false),
            );
            Ok(())
        },
    }
}

/// The eligibility sub-flow runs when nothing terminated the pass, the
/// attempt has no eligibility verdict yet, and the connector can check one.
pub open spec fn eligibility_runs(data: PayoutData, connector: ConnectorData) -> bool {
    !data.should_terminate && data.payout_attempt.is_eligible is None
        && connector.capabilities.eligibility
}

/// The eligibility the pass goes on with: the attempt's verdict, or the
/// configured default when no connector ever reported one.
pub open spec fn spec_effective_eligible(flag: Option<bool>, default: bool) -> bool {
    match flag {
        Some(b) => b,
        None => default,
    }
}

/// Runs the eligibility sub-flow when due, then refuses to continue the pass
/// unless the payout method data is eligible.
pub fn complete_payout_eligibility(
    store: &mut PayoutStore,
    gw: &mut ConnectorGateway,
    config: &PayoutsConfig,
    connector: &ConnectorData,
    data: &mut PayoutData,
) -> (r: Result<(), PayoutError>)
    requires
        old(store).wf(),
        aggregate_consistent(*old(store), *old(data)),
    ensures
        final(store).wf(),
        aggregate_consistent(*final(store), *final(data)),
        final(data).payout_attempt.connector == old(data).payout_attempt.connector,
        final(data).payouts.payout_id == old(data).payouts.payout_id,
        final(data).payouts.merchant_id == old(data).payouts.merchant_id,
        final(data).should_terminate == old(data).should_terminate,
        final(store).customers == old(store).customers,
        final(store).tasks == old(store).tasks,
        final(store).vault == old(store).vault,
        collateral_unchanged(*old(store), *final(store)),
        !eligibility_runs(*old(data), *connector) ==> *final(store) == *old(store) && *final(gw)
            == *old(gw) && *final(data) == *old(data) && (r is Ok <==> spec_effective_eligible(
            old(data).payout_attempt.is_eligible,
            config.payout_eligibility,
        )),
        eligibility_runs(*old(data), *connector) ==> ({
            &&& final(gw).log@ == old(gw).log@.push(PayoutOperation::Eligibility)
            &&& final(gw).outcomes@ == queue_after_one(*old(gw))
            &&& statuses_agree(*final(data))
            &&& (head_outcome_is_success(*old(gw)) ==> ({
                let resp = head_success(*old(gw));
                let status = eligibility_result_status(resp, old(data).payout_attempt.status);
                &&& final(data).payout_attempt == attempt_status_update(
                    old(data).payout_attempt,
                    status,
                    resp.connector_payout_id,
                    None,
                    None,
                    resp.payout_eligible,
                )
                &&& final(data).payouts == payouts_status_update(old(data).payouts, status)
                &&& (r is Ok <==> !spec_is_err_state(status) && spec_effective_eligible(
                    resp.payout_eligible,
                    config.payout_eligibility,
                ))
            }))
            &&& (!head_outcome_is_success(*old(gw)) ==> final(data).payout_attempt.status
                == PayoutStatus::Failed && final(data).payouts == payouts_status_update(
                old(data).payouts,
                PayoutStatus::Failed,
            ) && r is Err)
        }),
        r matches Err(e) ==> e is PayoutFailed,
{
    if !data.should_terminate && data.payout_attempt.is_eligible.is_none()
        && connector.capabilities.eligibility {
        check_payout_eligibility(store, gw, data)?;
    }
    let eligible = match data.payout_attempt.is_eligible {
        Some(b) => b,
        None => config.payout_eligibility,
    };
    if !eligible {
        return Err(
            PayoutError::PayoutFailed {
                status: data.payout_attempt.status,
                error_code: clone_opt_string(&data.payout_attempt.error_code),
                error_message: Some("Payout method data is invalid".to_owned()),
            },
        );
    }
    Ok(())
}

/// Saturating addition on seconds, for schedule and expiry times.
pub open spec fn spec_sat_add_u64(a: u64, b: u64) -> u64 {
    if a + b > u64::MAX {
        u64::MAX
    } else {
        (a + b) as u64
    }
}

pub fn saturating_add_u64(a: u64, b: u64) -> (r: u64)
    ensures
        r == spec_sat_add_u64(a, b),
{
    if a > u64::MAX - b {
        u64::MAX
    } else {
        a + b
    }
}

/// The customer already carries a connector-side registration for this
/// profile and connector.
pub open spec fn has_connector_customer(
    c: CustomerRecord,
    profile_id: u64,
    name: ConnectorName,
) -> bool {
    exists|i: int|
        0 <= i < c.connector_customers@.len() && c.connector_customers@[i].profile_id == profile_id
            && c.connector_customers@[i].connector == name
}

fn customer_has_connector_entry(c: &CustomerRecord, profile_id: u64, name: ConnectorName) -> (r:
    bool)
    ensures
        r == has_connector_customer(*c, profile_id, name),
{
    let mut i: usize = 0;
    while i < c.connector_customers.len()
        invariant
            i <= c.connector_customers@.len(),
            forall|j: int|
                0 <= j < i ==> !(c.connector_customers@[j].profile_id == profile_id
                    && c.connector_customers@[j].connector == name),
        decreases c.connector_customers@.len() - i,
    {
        if c.connector_customers[i].profile_id == profile_id && c.connector_customers[i].connector
            == name {
            return true;
        }
        i = i + 1;
    }
    false
}

/// The recipient-creation call is needed: there is a customer and the
/// connector holds no registration for them yet.
pub open spec fn recipient_call_needed(data: PayoutData, name: ConnectorName) -> bool {
    match data.customer_details {
        Some(c) => !has_connector_customer(c, data.profile_id, name),
        None => false,
    }
}

/// Status a deferred recipient-creation answer resolves to.
pub open spec fn recipient_next_status(resp: ConnectorResponseData) -> PayoutStatus {
    match resp.status {
        Some(s) => s,
        None => PayoutStatus::RequiresVendorAccountCreation,
    }
}

/// The deferred continuation scheduled when a connector provisions the
/// vendor account asynchronously.
pub open spec fn onboarding_task(data: PayoutData, now: u64) -> ScheduledTaskRecord {
    ScheduledTaskRecord {
        runner: TaskRunner::AttachPayoutAccountWorkflow,
        merchant_id: data.payouts.merchant_id,
        payout_id: data.payouts.payout_id,
        attempt_number: data.payout_attempt.attempt_number,
        schedule_time: spec_sat_add_u64(now, ACCOUNT_ONBOARDING_DELAY_SECONDS),
    }
}

/// Schedules the deferred vendor-account continuation for the current attempt.
pub fn add_external_account_addition_task(
    store: &mut PayoutStore,
    data: &PayoutData,
    schedule_time: u64,
) -> (r: Result<(), PayoutError>)
    requires
        old(store).wf(),
    ensures
        final(store).wf(),
        final(store).same_except_tasks(*old(store)),
        r is Ok <==> !old(store).has_task(
            data.payouts.merchant_id,
            data.payouts.payout_id,
            data.payout_attempt.attempt_number,
        ),
        r is Ok ==> final(store).tasks@ == old(store).tasks@.push(
            ScheduledTaskRecord {
                runner: TaskRunner::AttachPayoutAccountWorkflow,
                merchant_id: data.payouts.merchant_id,
                payout_id: data.payouts.payout_id,
                attempt_number: data.payout_attempt.attempt_number,
                schedule_time,
            },
        ),
        r is Err ==> *final(store) == *old(store),
        r matches Err(e) ==> e is InternalServerError,
{
    let task = ScheduledTaskRecord {
        runner: TaskRunner::AttachPayoutAccountWorkflow,
        merchant_id: data.payouts.merchant_id,
        payout_id: data.payouts.payout_id,
        attempt_number: data.payout_attempt.attempt_number,
        schedule_time,
    };
    match store.insert_process(task) {
        Ok(()) => Ok(()),
        Err(_) => Err(PayoutError::InternalServerError),
    }
}

/// What holds after a recipient-creation call was dispatched.
pub open spec fn recipient_outcome_post(
    old_store: PayoutStore,
    old_gw: ConnectorGateway,
    old_data: PayoutData,
    new_store: PayoutStore,
    new_gw: ConnectorGateway,
    new_data: PayoutData,
    r: Result<(), PayoutError>,
    now: u64,
) -> bool {
    &&& new_gw.log@ == old_gw.log@.push(PayoutOperation::RecipientCreate)
    &&& new_gw.outcomes@ == queue_after_one(old_gw)
    &&& (head_outcome_is_success(old_gw) ==> ({
        let resp = head_success(old_gw);
        if resp.should_add_next_step_to_process_tracker {
            if old_store.has_task(
                old_data.payouts.merchant_id,
                old_data.payouts.payout_id,
                old_data.payout_attempt.attempt_number,
            ) {
                &&& (r matches Err(e) && e is InternalServerError)
                &&& new_data.payouts == old_data.payouts
                &&& new_data.payout_attempt == old_data.payout_attempt
                &&& new_data.should_terminate == old_data.should_terminate
            } else {
                &&& r is Ok
                &&& new_store.tasks@ == old_store.tasks@.push(onboarding_task(old_data, now))
                &&& new_data.should_terminate == true
                &&& new_data.payout_attempt == attempt_status_update(
                    old_data.payout_attempt,
                    recipient_next_status(resp),
                    old_data.payout_attempt.connector_payout_id,
                    None,
                    None,
                    resp.payout_eligible,
                )
                &&& new_data.payouts == payouts_status_update(
                    old_data.payouts,
                    recipient_next_status(resp),
                )
                &&& statuses_agree(new_data)
            }
        } else {
            &&& r is Ok
            &&& new_data.payouts == old_data.payouts
            &&& new_data.payout_attempt == old_data.payout_attempt
            &&& new_data.should_terminate == old_data.should_terminate
            &&& new_store.tasks == old_store.tasks
            &&& new_store.payouts == old_store.payouts
            &&& new_store.attempts == old_store.attempts
        }
    }))
    &&& (!head_outcome_is_success(old_gw) ==> ({
        &&& new_data.payout_attempt.status == PayoutStatus::Failed
        &&& new_data.payouts == payouts_status_update(old_data.payouts, PayoutStatus::Failed)
        &&& statuses_agree(new_data)
        &&& new_data.should_terminate == old_data.should_terminate
        &&& (old_gw.outcomes@.len() > 0 ==> new_data.payout_attempt == attempt_status_update(
            old_data.payout_attempt,
            PayoutStatus::Failed,
            old_data.payout_attempt.connector_payout_id,
            Some(head_failure(old_gw).code),
            Some(head_failure(old_gw).message),
            None,
        ))
        &&& (r matches Err(e) && e matches PayoutError::PayoutFailed { status: s, .. } && s
            == PayoutStatus::Failed)
    }))
}

/// Registers the payee with the connector when needed. A connector answer
/// that defers vendor-account provisioning schedules the follow-up task,
/// persists the deferred status and terminates the pass; a connector failure
/// is persisted as Failed and surfaced as `PayoutFailed`.
pub fn create_recipient(
    store: &mut PayoutStore,
    gw: &mut ConnectorGateway,
    connector: &ConnectorData,
    data: &mut PayoutData,
    now: u64,
) -> (r: Result<(), PayoutError>)
    requires
        old(store).wf(),
        aggregate_consistent(*old(store), *old(data)),
    ensures
        final(store).wf(),
        aggregate_consistent(*final(store), *final(data)),
        final(data).payout_attempt.connector == old(data).payout_attempt.connector,
        final(data).payouts.payout_id == old(data).payouts.payout_id,
        final(data).payouts.merchant_id == old(data).payouts.merchant_id,
        collateral_unchanged(*old(store), *final(store)),
        final(store).vault == old(store).vault,
        final(data).payout_method_data == old(data).payout_method_data,
        !recipient_call_needed(*old(data), connector.connector_name) ==> *final(store) == *old(
            store,
        ) && *final(gw) == *old(gw) && *final(data) == *old(data) && r is Ok,
        recipient_call_needed(*old(data), connector.connector_name) ==> recipient_outcome_post(
            *old(store),
            *old(gw),
            *old(data),
            *final(store),
            *final(gw),
            *final(data),
            r,
            now,
        ),
{
    let needed = match &data.customer_details {
        Some(c) => !customer_has_connector_entry(c, data.profile_id, connector.connector_name),
        None => false,
    };
    if !needed {
        return Ok(());
    }
    let outcome = gw.dispatch(PayoutOperation::RecipientCreate);
    match outcome {
        ConnectorOutcome::Success(resp) => {
            // Record the connector-side registration on the customer.
            if let Some(recipient_id) = resp.connector_payout_id {
                let updated = match &data.customer_details {
                    Some(c) => {
                        let mut d = c.duplicate();
                        d.connector_customers.push(
                            ConnectorCustomerEntry {
                                profile_id: data.profile_id,
                                connector: connector.connector_name,
                                connector_customer_id: recipient_id,
                            },
                        );
                        Some(d)
                    },
                    None => None,
                };
                if let Some(u) = updated {
                    store.upsert_customer(u.duplicate());
                    data.customer_details = Some(u);
                }
            }
            if resp.should_add_next_step_to_process_tracker {
                let schedule_time = saturating_add_u64(now, ACCOUNT_ONBOARDING_DELAY_SECONDS);
                add_external_account_addition_task(store, data, schedule_time)?;
                let status = match resp.status {
                    Some(s) => s,
                    None => PayoutStatus::RequiresVendorAccountCreation,
                };
                let kept_connector_payout_id = clone_opt_string(
                    &data.payout_attempt.connector_payout_id,
                );
                persist_status_update(
                    store,
                    data,
                    status,
                    kept_connector_payout_id,
                    None,
                    None,
                    resp.payout_eligible,
                );
                data.should_terminate = true;
            }
            Ok(())
        },
        ConnectorOutcome::Failure(err) => {
            let error_code = Some(err.code);
            let error_message = Some(err.message);
            let kept_connector_payout_id = clone_opt_string(&data.payout_attempt.connector_payout_id);
            persist_status_update(
                store,
                data,
                PayoutStatus::Failed,
                kept_connector_payout_id,
                clone_opt_string(&error_code),
                clone_opt_string(&error_message),
                None,
            );
            Err(PayoutError::PayoutFailed { status: PayoutStatus::Failed, error_code, error_message })
        },
    }
}

/// The recipient sub-flow runs when nothing terminated the pass, the status
/// is creation-eligible, and the connector supports recipient creation.
pub open spec fn recipient_flow_runs(data: PayoutData, connector: ConnectorData) -> bool {
    !data.should_terminate && spec_is_creation_eligible(data.payout_attempt.status)
        && connector.capabilities.recipient_create
}

/// Runs the recipient-creation sub-flow when due.
pub fn complete_create_recipient(
    store: &mut PayoutStore,
    gw: &mut ConnectorGateway,
    connector: &ConnectorData,
    data: &mut PayoutData,
    now: u64,
) -> (r: Result<(), PayoutError>)
    requires
        old(store).wf(),
        aggregate_consistent(*old(store), *old(data)),
    ensures
        final(store).wf(),
        aggregate_consistent(*final(store), *final(data)),
        final(data).payout_attempt.connector == old(data).payout_attempt.connector,
        final(data).payouts.payout_id == old(data).payouts.payout_id,
        final(data).payouts.merchant_id == old(data).payouts.merchant_id,
        collateral_unchanged(*old(store), *final(store)),
        final(store).vault == old(store).vault,
        final(data).payout_method_data == old(data).payout_method_data,
        (!recipient_flow_runs(*old(data), *connector) || !recipient_call_needed(
            *old(data),
            connector.connector_name,
        )) ==> *final(store) == *old(store) && *final(gw) == *old(gw) && *final(data) == *old(data)
            && r is Ok,
        recipient_flow_runs(*old(data), *connector) && recipient_call_needed(
            *old(data),
            connector.connector_name,
        ) ==> recipient_outcome_post(
            *old(store),
            *old(gw),
            *old(data),
            *final(store),
            *final(gw),
            *final(data),
            r,
            now,
        ),
{
    if !data.should_terminate && is_creation_eligible(data.payout_attempt.status)
        && connector.capabilities.recipient_create {
        create_recipient(store, gw, connector, data, now)
    } else {
        Ok(())
    }
}

/// The outcome at position `k` of the queue is a successful response.
pub open spec fn outcome_is_success(gw: ConnectorGateway, k: int) -> bool {
    gw.outcomes@.len() > k && gw.outcomes@[k] is Success
}

/// The successful response at position `k` of the queue.
pub open spec fn success_at(gw: ConnectorGateway, k: int) -> ConnectorResponseData {
    gw.outcomes@[k]->Success_0
}

/// What holds after the connector's creation operation was dispatched, the
/// quote step (when the connector requires one) having succeeded.
pub open spec fn create_outcome_post(
    old_gw: ConnectorGateway,
    old_data: PayoutData,
    new_data: PayoutData,
    r: Result<(), PayoutError>,
    k: int,
) -> bool {
    &&& (outcome_is_success(old_gw, k) ==> ({
        let resp = success_at(old_gw, k);
        let status = response_status(resp, old_data.payout_attempt.status);
        &&& new_data.payout_attempt == attempt_status_update(
            old_data.payout_attempt,
            status,
            resp.connector_payout_id,
            None,
            None,
            resp.payout_eligible,
        )
        &&& new_data.payouts == payouts_status_update(old_data.payouts, status)
        &&& (r is Ok <==> !spec_is_err_state(status))
        &&& (r matches Err(e) ==> e matches PayoutError::PayoutFailed { status: s, .. } && s
            == status)
    }))
    &&& (!outcome_is_success(old_gw, k) ==> ({
        &&& new_data.payout_attempt.status == PayoutStatus::Failed
        &&& new_data.payouts == payouts_status_update(old_data.payouts, PayoutStatus::Failed)
        &&& (old_gw.outcomes@.len() > k ==> new_data.payout_attempt == attempt_status_update(
            old_data.payout_attempt,
            PayoutStatus::Failed,
            old_data.payout_attempt.connector_payout_id,
            Some(old_gw.outcomes@[k]->Failure_0.code),
            Some(old_gw.outcomes@[k]->Failure_0.message),
            None,
        ))
        &&& r is Ok
    }))
    &&& statuses_agree(new_data)
    &&& new_data.should_terminate == old_data.should_terminate
}

/// Calls the connector's creation operation, preceded by a quote when the
/// connector requires one. A quote failure is persisted as Failed and
/// surfaced as `PayoutFailed`; the creation outcome is persisted, and an
/// error-classified resolved status is surfaced as `PayoutFailed`.
pub fn create_payout(
    store: &mut PayoutStore,
    gw: &mut ConnectorGateway,
    connector: &ConnectorData,
    data: &mut PayoutData,
) -> (r: Result<(), PayoutError>)
    requires
        old(store).wf(),
        aggregate_consistent(*old(store), *old(data)),
    ensures
        final(store).wf(),
        aggregate_consistent(*final(store), *final(data)),
        final(data).payout_attempt.connector == old(data).payout_attempt.connector,
        final(data).payouts.payout_id == old(data).payouts.payout_id,
        final(data).payouts.merchant_id == old(data).payouts.merchant_id,
        collateral_unchanged(*old(store), *final(store)),
        final(store).customers == old(store).customers,
        final(store).tasks == old(store).tasks,
        final(store).vault == old(store).vault,
        final(data).payout_method_data == old(data).payout_method_data,
        final(data).should_terminate == old(data).should_terminate,
        statuses_agree(*final(data)),
        !connector.capabilities.quote_required ==> ({
            &&& final(gw).log@ == old(gw).log@.push(PayoutOperation::Create)
            &&& final(gw).outcomes@ == queue_after_one(*old(gw))
            &&& create_outcome_post(*old(gw), *old(data), *final(data), r, 0)
        }),
        connector.capabilities.quote_required ==> ({
            if head_outcome_is_success(*old(gw)) {
                &&& final(gw).log@ == old(gw).log@.push(PayoutOperation::Quote).push(
                    PayoutOperation::Create,
                )
                &&& (old(gw).outcomes@.len() >= 2 ==> final(gw).outcomes@
                    == old(gw).outcomes@.skip(2))
                &&& (old(gw).outcomes@.len() < 2 ==> final(gw).outcomes@.len() == 0)
                &&& create_outcome_post(*old(gw), *old(data), *final(data), r, 1)
            } else {
                &&& final(gw).log@ == old(gw).log@.push(PayoutOperation::Quote)
                &&& final(gw).outcomes@ == queue_after_one(*old(gw))
                &&& final(data).payout_attempt.status == PayoutStatus::Failed
                &&& final(data).payouts == payouts_status_update(
                    old(data).payouts,
                    PayoutStatus::Failed,
                )
                &&& (old(gw).outcomes@.len() > 0 ==> final(data).payout_attempt
                    == attempt_status_update(
                    old(data).payout_attempt,
                    PayoutStatus::Failed,
                    old(data).payout_attempt.connector_payout_id,
                    Some(head_failure(*old(gw)).code),
                    Some(head_failure(*old(gw)).message),
                    None,
                ))
                &&& (r matches Err(e) && e matches PayoutError::PayoutFailed { status: s, .. } && s
                    == PayoutStatus::Failed)
            }
        }),
{
    if connector.capabilities.quote_required {
        let quote_outcome = gw.dispatch(PayoutOperation::Quote);
        match quote_outcome {
            ConnectorOutcome::Success(_) => {},
            ConnectorOutcome::Failure(err) => {
                let error_code = Some(err.code);
                let error_message = Some(err.message);
                let kept_connector_payout_id = clone_opt_string(
                    &data.payout_attempt.connector_payout_id,
                );
                persist_status_update(
                    store,
                    data,
                    PayoutStatus::Failed,
                    kept_connector_payout_id,
                    clone_opt_string(&error_code),
                    clone_opt_string(&error_message),
                    None,
                );
                return Err(
                    PayoutError::PayoutFailed {
                        status: PayoutStatus::Failed,
                        error_code,
                        error_message,
                    },
                );
            },
        }
    }
    let outcome = gw.dispatch(PayoutOperation::Create);
    proof {
        if connector.capabilities.quote_required && head_outcome_is_success(*old(gw))
            && old(gw).outcomes@.len() >= 2 {
            assert(gw.outcomes@ =~= old(gw).outcomes@.skip(2));
        }
    }
    match outcome {
        ConnectorOutcome::Success(resp) => {
            let status = match resp.status {
                Some(s) => s,
                None => data.payout_attempt.status,
            };
            persist_status_update(
                store,
                data,
                status,
                resp.connector_payout_id,
                None,
                None,
                resp.payout_eligible,
            );
            if is_payout_err_state(status) {
                return Err(
                    PayoutError::PayoutFailed {
                        status,
                        error_code: clone_opt_string(&data.payout_attempt.error_code),
                        error_message: clone_opt_string(&data.payout_attempt.error_message),
                    },
                );
            }
            Ok(())
        },
        ConnectorOutcome::Failure(err) => {
            let kept_connector_payout_id = clone_opt_string(&data.payout_attempt.connector_payout_id);
            persist_status_update(
                store,
                data,
                PayoutStatus::Failed,
                kept_connector_payout_id,
                Some(err.code),
                Some(err.message),
                None,
            );
            Ok(())
        },
    }
}

/// The creation sub-flow runs when nothing terminated the pass and the
/// status is creation-eligible.
pub open spec fn create_flow_runs(data: PayoutData) -> bool {
    !data.should_terminate && spec_is_creation_eligible(data.payout_attempt.status)
}

/// Runs the payout-creation sub-flow when due. A connector that supports
/// instant payouts skips the connector call entirely: the payout moves
/// straight to RequiresFulfillment locally.
#[verifier::rlimit(50)]
pub fn complete_create_payout(
    store: &mut PayoutStore,
    gw: &mut ConnectorGateway,
    connector: &ConnectorData,
    data: &mut PayoutData,
) -> (r: Result<(), PayoutError>)
    requires
        old(store).wf(),
        aggregate_consistent(*old(store), *old(data)),
    ensures
        final(store).wf(),
        aggregate_consistent(*final(store), *final(data)),
        final(data).payout_attempt.connector == old(data).payout_attempt.connector,
        final(data).payouts.payout_id == old(data).payouts.payout_id,
        final(data).payouts.merchant_id == old(data).payouts.merchant_id,
        collateral_unchanged(*old(store), *final(store)),
        final(store).customers == old(store).customers,
        final(store).tasks == old(store).tasks,
        final(store).vault == old(store).vault,
        final(data).payout_method_data == old(data).payout_method_data,
        final(data).should_terminate == old(data).should_terminate,
        !create_flow_runs(*old(data)) ==> *final(store) == *old(store) && *final(gw) == *old(gw)
            && *final(data) == *old(data) && r is Ok,
        create_flow_runs(*old(data)) && connector.capabilities.instant_payout ==> ({
            &&& *final(gw) == *old(gw)
            &&& final(data).payout_attempt == attempt_status_update(
                old(data).payout_attempt,
                PayoutStatus::RequiresFulfillment,
                old(data).payout_attempt.connector_payout_id,
                None,
                None,
                None,
            )
            &&& final(data).payouts == payouts_status_update(
                old(data).payouts,
                PayoutStatus::RequiresFulfillment,
            )
            &&& r is Ok
        }),
        create_flow_runs(*old(data)) && !connector.capabilities.instant_payout ==> ({
            &&& !connector.capabilities.quote_required ==> final(gw).log@ == old(gw).log@.push(
                PayoutOperation::Create,
            ) && final(gw).outcomes@ == queue_after_one(*old(gw)) && create_outcome_post(
                *old(gw),
                *old(data),
                *final(data),
                r,
                0,
            )
            &&& connector.capabilities.quote_required ==> (if head_outcome_is_success(*old(gw)) {
                &&& final(gw).log@ == old(gw).log@.push(PayoutOperation::Quote).push(
                    PayoutOperation::Create,
                )
                &&& (old(gw).outcomes@.len() >= 2 ==> final(gw).outcomes@
                    == old(gw).outcomes@.skip(2))
                &&& (old(gw).outcomes@.len() < 2 ==> final(gw).outcomes@.len() == 0)
                &&& create_outcome_post(*old(gw), *old(data), *final(data), r, 1)
            } else {
                &&& final(gw).log@ == old(gw).log@.push(PayoutOperation::Quote)
                &&& final(gw).outcomes@ == queue_after_one(*old(gw))
                &&& final(data).payout_attempt.status == PayoutStatus::Failed
                &&& final(data).payouts == payouts_status_update(
                    old(data).payouts,
                    PayoutStatus::Failed,
                )
                &&& r is Err
            })
        }),
        // Whatever ran, an instant-capable connector never sees a creation call.
        connector.capabilities.instant_payout ==> ops_since(*old(gw), *final(gw)) =~= Seq::<
            PayoutOperation,
        >::empty(),
{
    if !data.should_terminate && is_creation_eligible(data.payout_attempt.status) {
        if connector.capabilities.instant_payout {
            let kept_connector_payout_id = clone_opt_string(&data.payout_attempt.connector_payout_id);
            persist_status_update(
                store,
                data,
                PayoutStatus::RequiresFulfillment,
                kept_connector_payout_id,
                None,
                None,
                None,
            );
            proof {
                assert(ops_since(*old(gw), *final(gw)) =~= Seq::<PayoutOperation>::empty());
            }
            Ok(())
        } else {
            create_payout(store, gw, connector, data)
        }
    } else {
        proof {
            assert(ops_since(*old(gw), *final(gw)) =~= Seq::<PayoutOperation>::empty());
        }
        Ok(())
    }
}

/// What holds after a cancel or disbursement-account call was dispatched:
/// the resolved status is persisted on success, Failed with the connector's
/// code and message on failure, and neither outcome raises an error.
pub open spec fn recording_outcome_post(
    old_gw: ConnectorGateway,
    old_data: PayoutData,
    new_data: PayoutData,
    r: Result<(), PayoutError>,
) -> bool {
    &&& (head_outcome_is_success(old_gw) ==> ({
        let resp = head_success(old_gw);
        let status = response_status(resp, old_data.payout_attempt.status);
        &&& new_data.payout_attempt == attempt_status_update(
            old_data.payout_attempt,
            status,
            resp.connector_payout_id,
            None,
            None,
            resp.payout_eligible,
        )
        &&& new_data.payouts == payouts_status_update(old_data.payouts, status)
    }))
    &&& (!head_outcome_is_success(old_gw) ==> ({
        &&& new_data.payout_attempt.status == PayoutStatus::Failed
        &&& new_data.payouts == payouts_status_update(old_data.payouts, PayoutStatus::Failed)
        &&& new_data.payout_attempt.error_code is Some
        &&& new_data.payout_attempt.error_message is Some
        &&& (old_gw.outcomes@.len() > 0 ==> new_data.payout_attempt == attempt_status_update(
            old_data.payout_attempt,
            PayoutStatus::Failed,
            old_data.payout_attempt.connector_payout_id,
            Some(head_failure(old_gw).code),
            Some(head_failure(old_gw).message),
            None,
        ))
    }))
    &&& statuses_agree(new_data)
    &&& r is Ok
    &&& new_data.should_terminate == old_data.should_terminate
}

/// Calls the connector's disbursement-account creation operation and
/// persists the outcome.
pub fn create_recipient_disburse_account(
    store: &mut PayoutStore,
    gw: &mut ConnectorGateway,
    data: &mut PayoutData,
) -> (r: Result<(), PayoutError>)
    requires
        old(store).wf(),
        aggregate_consistent(*old(store), *old(data)),
    ensures
        final(store).wf(),
        aggregate_consistent(*final(store), *final(data)),
        final(data).payout_attempt.connector == old(data).payout_attempt.connector,
        final(data).payouts.payout_id == old(data).payouts.payout_id,
        final(data).payouts.merchant_id == old(data).payouts.merchant_id,
        collateral_unchanged(*old(store), *final(store)),
        final(store).customers == old(store).customers,
        final(store).tasks == old(store).tasks,
        final(store).vault == old(store).vault,
        final(data).payout_method_data == old(data).payout_method_data,
        final(gw).log@ == old(gw).log@.push(PayoutOperation::RecipientAccountCreate),
        final(gw).outcomes@ == queue_after_one(*old(gw)),
        recording_outcome_post(*old(gw), *old(data), *final(data), r),
{
    let outcome = gw.dispatch(PayoutOperation::RecipientAccountCreate);
    match outcome {
        ConnectorOutcome::Success(resp) => {
            let status = match resp.status {
                Some(s) => s,
                None => data.payout_attempt.status,
            };
            persist_status_update(
                store,
                data,
                status,
                resp.connector_payout_id,
                None,
                None,
                resp.payout_eligible,
            );
            Ok(())
        },
        ConnectorOutcome::Failure(err) => {
            let kept_connector_payout_id = clone_opt_string(&data.payout_attempt.connector_payout_id);
            persist_status_update(
                store,
                data,
                PayoutStatus::Failed,
                kept_connector_payout_id,
                Some(err.code),
                Some(err.message),
                None,
            );
            Ok(())
        },
    }
}

/// The disbursement-account sub-flow runs when nothing terminated the pass,
/// the payout waits for its vendor account, and the connector can create one.
pub open spec fn disburse_flow_runs(data: PayoutData, connector: ConnectorData) -> bool {
    !data.should_terminate && data.payout_attempt.status
        == PayoutStatus::RequiresVendorAccountCreation
        && connector.capabilities.vendor_disburse_account_create
}

/// Runs the disbursement-account sub-flow when due.
pub fn complete_create_recipient_disburse_account(
    store: &mut PayoutStore,
    gw: &mut ConnectorGateway,
    connector: &ConnectorData,
    data: &mut PayoutData,
) -> (r: Result<(), PayoutError>)
    requires
        old(store).wf(),
        aggregate_consistent(*old(store), *old(data)),
    ensures
        final(store).wf(),
        aggregate_consistent(*final(store), *final(data)),
        final(data).payout_attempt.connector == old(data).payout_attempt.connector,
        final(data).payouts.payout_id == old(data).payouts.payout_id,
        final(data).payouts.merchant_id == old(data).payouts.merchant_id,
        collateral_unchanged(*old(store), *final(store)),
        final(store).customers == old(store).customers,
        final(store).tasks == old(store).tasks,
        final(store).vault == old(store).vault,
        final(data).payout_method_data == old(data).payout_method_data,
        !disburse_flow_runs(*old(data), *connector) ==> *final(store) == *old(store) && *final(gw)
            == *old(gw) && *final(data) == *old(data) && r is Ok,
        disburse_flow_runs(*old(data), *connector) ==> final(gw).log@ == old(gw).log@.push(
            PayoutOperation::RecipientAccountCreate,
        ) && final(gw).outcomes@ == queue_after_one(*old(gw)) && recording_outcome_post(
            *old(gw),
            *old(data),
            *final(data),
            r,
        ),
{
    if !data.should_terminate && matches!(
        data.payout_attempt.status,
        PayoutStatus::RequiresVendorAccountCreation,
    ) && connector.capabilities.vendor_disburse_account_create {
        create_recipient_disburse_account(store, gw, data)
    } else {
        Ok(())
    }
}

/// Calls the connector's cancellation operation and persists the outcome.
pub fn cancel_payout(
    store: &mut PayoutStore,
    gw: &mut ConnectorGateway,
    data: &mut PayoutData,
) -> (r: Result<(), PayoutError>)
    requires
        old(store).wf(),
        aggregate_consistent(*old(store), *old(data)),
    ensures
        final(store).wf(),
        aggregate_consistent(*final(store), *final(data)),
        final(data).payout_attempt.connector == old(data).payout_attempt.connector,
        final(data).payouts.payout_id == old(data).payouts.payout_id,
        final(data).payouts.merchant_id == old(data).payouts.merchant_id,
        collateral_unchanged(*old(store), *final(store)),
        final(store).customers == old(store).customers,
        final(store).tasks == old(store).tasks,
        final(store).vault == old(store).vault,
        final(data).payout_method_data == old(data).payout_method_data,
        final(gw).log@ == old(gw).log@.push(PayoutOperation::Cancel),
        final(gw).outcomes@ == queue_after_one(*old(gw)),
        recording_outcome_post(*old(gw), *old(data), *final(data), r),
{
    let outcome = gw.dispatch(PayoutOperation::Cancel);
    match outcome {
        ConnectorOutcome::Success(resp) => {
            let status = match resp.status {
                Some(s) => s,
                None => data.payout_attempt.status,
            };
            persist_status_update(
                store,
                data,
                status,
                resp.connector_payout_id,
                None,
                None,
                resp.payout_eligible,
            );
            Ok(())
        },
        ConnectorOutcome::Failure(err) => {
            let kept_connector_payout_id = clone_opt_string(&data.payout_attempt.connector_payout_id);
            persist_status_update(
                store,
                data,
                PayoutStatus::Failed,
                kept_connector_payout_id,
                Some(err.code),
                Some(err.message),
                None,
            );
            Ok(())
        },
    }
}

/// The recurring payout's method data is saved to the vault after a
/// successful fulfillment.
pub open spec fn fulfill_saves_method(data: PayoutData, status: PayoutStatus) -> bool {
    &&& data.payouts.recurring
    &&& data.payouts.payout_method_id is None
    &&& !spec_is_err_state(status)
    &&& data.payout_attempt.payout_token is Some
    &&& data.payout_method_data is Some
}

/// Calls the connector's fulfillment operation and persists the outcome. A
/// successful fulfillment of a recurring payout saves the method data to the
/// vault under the attempt's token and records the token on the payout.
pub fn fulfill_payout(
    store: &mut PayoutStore,
    gw: &mut ConnectorGateway,
    data: &mut PayoutData,
) -> (r: Result<(), PayoutError>)
    requires
        old(store).wf(),
        aggregate_consistent(*old(store), *old(data)),
    ensures
        final(store).wf(),
        aggregate_consistent(*final(store), *final(data)),
        final(data).payout_attempt.connector == old(data).payout_attempt.connector,
        final(data).payouts.payout_id == old(data).payouts.payout_id,
        final(data).payouts.merchant_id == old(data).payouts.merchant_id,
        collateral_unchanged(*old(store), *final(store)),
        final(store).customers == old(store).customers,
        final(store).tasks == old(store).tasks,
        final(data).payout_method_data == old(data).payout_method_data,
        final(data).should_terminate == old(data).should_terminate,
        final(gw).log@ == old(gw).log@.push(PayoutOperation::Fulfill),
        final(gw).outcomes@ == queue_after_one(*old(gw)),
        statuses_agree(*final(data)),
        head_outcome_is_success(*old(gw)) ==> ({
            let resp = head_success(*old(gw));
            let status = response_status(resp, old(data).payout_attempt.status);
            &&& final(data).payout_attempt == attempt_status_update(
                old(data).payout_attempt,
                status,
                resp.connector_payout_id,
                None,
                None,
                resp.payout_eligible,
            )
            &&& (fulfill_saves_method(*old(data), status) ==> final(data).payouts == PayoutsRecord {
                status,
                payout_method_id: old(data).payout_attempt.payout_token,
                ..old(data).payouts
            })
            &&& (!fulfill_saves_method(*old(data), status) ==> final(data).payouts
                == payouts_status_update(old(data).payouts, status) && final(store).vault == old(
                store,
            ).vault)
            &&& (r is Ok <==> !spec_is_err_state(status))
            &&& (r matches Err(e) ==> e matches PayoutError::PayoutFailed { status: s, .. } && s
                == status)
        }),
        !head_outcome_is_success(*old(gw)) ==> ({
            &&& final(data).payout_attempt.status == PayoutStatus::Failed
            &&& final(data).payouts == payouts_status_update(old(data).payouts, PayoutStatus::Failed)
            &&& final(store).vault == old(store).vault
            &&& (old(gw).outcomes@.len() > 0 ==> final(data).payout_attempt
                == attempt_status_update(
                old(data).payout_attempt,
                PayoutStatus::Failed,
                old(data).payout_attempt.connector_payout_id,
                Some(head_failure(*old(gw)).code),
                Some(head_failure(*old(gw)).message),
                None,
            ))
            &&& r is Ok
        }),
{
    let outcome = gw.dispatch(PayoutOperation::Fulfill);
    match outcome {
        ConnectorOutcome::Success(resp) => {
            let status = match resp.status {
                Some(s) => s,
                None => data.payout_attempt.status,
            };
            persist_status_update(
                store,
                data,
                status,
                resp.connector_payout_id,
                None,
                None,
                resp.payout_eligible,
            );
            let save = data.payouts.recurring && data.payouts.payout_method_id.is_none()
                && !is_payout_err_state(status);
            if save {
                if let (Some(token), Some(md)) = (data.payout_attempt.payout_token, data.payout_method_data) {
                    store.upsert_vault_entry(
                        crate::records::VaultEntry {
                            merchant_id: data.payouts.merchant_id,
                            customer_id: data.payouts.customer_id,
                            token,
                            method_data: md,
                        },
                    );
                    let updated = PayoutsRecord {
                        payout_method_id: Some(token),
                        ..data.payouts.duplicate()
                    };
                    proof {
                        let p = data.payouts;
                        assert(store.payouts@.contains(p));
                        let i = choose|i: int|
                            0 <= i < store.payouts@.len() && store.payouts@[i] == p;
                        assert(crate::store::payout_key_matches(
                            store.payouts@[i],
                            updated.merchant_id,
                            updated.payout_id,
                        ));
                        assert(store.has_payout(updated.merchant_id, updated.payout_id));
                    }
                    store.replace_payout(&updated);
                    data.payouts = updated;
                }
            }
            if is_payout_err_state(status) {
                return Err(
                    PayoutError::PayoutFailed {
                        status,
                        error_code: clone_opt_string(&data.payout_attempt.error_code),
                        error_message: clone_opt_string(&data.payout_attempt.error_message),
                    },
                );
            }
            Ok(())
        },
        ConnectorOutcome::Failure(err) => {
            let kept_connector_payout_id = clone_opt_string(&data.payout_attempt.connector_payout_id);
            persist_status_update(
                store,
                data,
                PayoutStatus::Failed,
                kept_connector_payout_id,
                Some(err.code),
                Some(err.message),
                None,
            );
            Ok(())
        },
    }
}

/// What holds after a retrieval (sync) call was dispatched: the connector's
/// view of the status is persisted; when it is error-classified, the
/// connector's error details are recorded with it.
pub open spec fn retrieve_outcome_post(
    old_gw: ConnectorGateway,
    old_data: PayoutData,
    new_data: PayoutData,
    r: Result<(), PayoutError>,
) -> bool {
    &&& (head_outcome_is_success(old_gw) ==> ({
        let resp = head_success(old_gw);
        let status = response_status(resp, old_data.payout_attempt.status);
        &&& new_data.payout_attempt == attempt_status_update(
            old_data.payout_attempt,
            status,
            resp.connector_payout_id,
            if spec_is_err_state(status) {
                resp.error_code
            } else {
                None
            },
            if spec_is_err_state(status) {
                resp.error_message
            } else {
                None
            },
            resp.payout_eligible,
        )
        &&& new_data.payouts == payouts_status_update(old_data.payouts, status)
    }))
    &&& (!head_outcome_is_success(old_gw) ==> ({
        &&& new_data.payout_attempt.status == PayoutStatus::Failed
        &&& new_data.payouts == payouts_status_update(old_data.payouts, PayoutStatus::Failed)
    }))
    &&& statuses_agree(new_data)
    &&& r is Ok
    &&& new_data.should_terminate == old_data.should_terminate
}

/// Persists what a retrieval answer says about the payout.
pub fn update_retrieve_payout_tracker(
    store: &mut PayoutStore,
    data: &mut PayoutData,
    outcome: ConnectorOutcome,
) -> (r: Result<(), PayoutError>)
    requires
        old(store).wf(),
        aggregate_consistent(*old(store), *old(data)),
    ensures
        final(store).wf(),
        aggregate_consistent(*final(store), *final(data)),
        final(data).payout_attempt.connector == old(data).payout_attempt.connector,
        final(data).payouts.payout_id == old(data).payouts.payout_id,
        final(data).payouts.merchant_id == old(data).payouts.merchant_id,
        collateral_unchanged(*old(store), *final(store)),
        final(store).customers == old(store).customers,
        final(store).tasks == old(store).tasks,
        final(store).vault == old(store).vault,
        final(data).payout_method_data == old(data).payout_method_data,
        statuses_agree(*final(data)),
        final(data).should_terminate == old(data).should_terminate,
        r is Ok,
        outcome matches ConnectorOutcome::Success(resp) ==> ({
            let status = response_status(resp, old(data).payout_attempt.status);
            &&& final(data).payout_attempt == attempt_status_update(
                old(data).payout_attempt,
                status,
                resp.connector_payout_id,
                if spec_is_err_state(status) {
                    resp.error_code
                } else {
                    None
                },
                if spec_is_err_state(status) {
                    resp.error_message
                } else {
                    None
                },
                resp.payout_eligible,
            )
            &&& final(data).payouts == payouts_status_update(old(data).payouts, status)
        }),
        outcome matches ConnectorOutcome::Failure(e) ==> ({
            &&& final(data).payout_attempt == attempt_status_update(
                old(data).payout_attempt,
                PayoutStatus::Failed,
                old(data).payout_attempt.connector_payout_id,
                Some(e.code),
                Some(e.message),
                None,
            )
            &&& final(data).payouts == payouts_status_update(old(data).payouts, PayoutStatus::Failed)
        }),
{
    match outcome {
        ConnectorOutcome::Success(resp) => {
            let status = match resp.status {
                Some(s) => s,
                None => data.payout_attempt.status,
            };
            let (error_code, error_message) = if is_payout_err_state(status) {
                (resp.error_code, resp.error_message)
            } else {
                (None, None)
            };
            persist_status_update(
                store,
                data,
                status,
                resp.connector_payout_id,
                error_code,
                error_message,
                resp.payout_eligible,
            );
            Ok(())
        },
        ConnectorOutcome::Failure(err) => {
            let kept_connector_payout_id = clone_opt_string(&data.payout_attempt.connector_payout_id);
            persist_status_update(
                store,
                data,
                PayoutStatus::Failed,
                kept_connector_payout_id,
                Some(err.code),
                Some(err.message),
                None,
            );
            Ok(())
        },
    }
}

/// Asks the connector for the payout's current state and persists the answer.
pub fn create_payout_retrieve(
    store: &mut PayoutStore,
    gw: &mut ConnectorGateway,
    data: &mut PayoutData,
) -> (r: Result<(), PayoutError>)
    requires
        old(store).wf(),
        aggregate_consistent(*old(store), *old(data)),
    ensures
        final(store).wf(),
        aggregate_consistent(*final(store), *final(data)),
        final(data).payout_attempt.connector == old(data).payout_attempt.connector,
        final(data).payouts.payout_id == old(data).payouts.payout_id,
        final(data).payouts.merchant_id == old(data).payouts.merchant_id,
        collateral_unchanged(*old(store), *final(store)),
        final(store).customers == old(store).customers,
        final(store).tasks == old(store).tasks,
        final(store).vault == old(store).vault,
        final(data).payout_method_data == old(data).payout_method_data,
        final(gw).log@ == old(gw).log@.push(PayoutOperation::Sync),
        final(gw).outcomes@ == queue_after_one(*old(gw)),
        retrieve_outcome_post(*old(gw), *old(data), *final(data), r),
{
    let outcome = gw.dispatch(PayoutOperation::Sync);
    update_retrieve_payout_tracker(store, data, outcome)
}

/// Runs the retrieval sub-flow for a resolved connector choice. Only a
/// pre-determined single connector can be synced against.
pub fn complete_payout_retrieve(
    store: &mut PayoutStore,
    gw: &mut ConnectorGateway,
    connector_call_type: crate::connector::ConnectorCallType,
    data: &mut PayoutData,
) -> (r: Result<(), PayoutError>)
    requires
        old(store).wf(),
        aggregate_consistent(*old(store), *old(data)),
    ensures
        final(store).wf(),
        aggregate_consistent(*final(store), *final(data)),
        final(data).payout_attempt.connector == old(data).payout_attempt.connector,
        final(data).payouts.payout_id == old(data).payouts.payout_id,
        final(data).payouts.merchant_id == old(data).payouts.merchant_id,
        collateral_unchanged(*old(store), *final(store)),
        final(store).customers == old(store).customers,
        final(store).tasks == old(store).tasks,
        final(store).vault == old(store).vault,
        connector_call_type is PreDetermined ==> final(gw).log@ == old(gw).log@.push(
            PayoutOperation::Sync,
        ) && final(gw).outcomes@ == queue_after_one(*old(gw)) && retrieve_outcome_post(
            *old(gw),
            *old(data),
            *final(data),
            r,
        ),
        !(connector_call_type is PreDetermined) ==> *final(store) == *old(store) && *final(gw)
            == *old(gw) && *final(data) == *old(data) && (r matches Err(e)
            && e is InternalServerError),
{
    match connector_call_type {
        crate::connector::ConnectorCallType::PreDetermined(_connector_data) => {
            create_payout_retrieve(store, gw, data)
        },
        _ => Err(PayoutError::InternalServerError),
    }
}

/// Resolves the payout method data for a pass: data already at hand is kept
/// (and tokenized into the vault when the attempt carries a token); otherwise
/// the attempt's token is looked up in the vault.
pub fn make_payout_method_data(
    store: &mut PayoutStore,
    given: Option<PayoutMethodData>,
    payout_token: Option<u64>,
    merchant_id: u64,
    customer_id: u64,
) -> (r: Result<Option<PayoutMethodData>, PayoutError>)
    requires
        old(store).wf(),
    ensures
        final(store).wf(),
        final(store).same_except_vault(*old(store)),
        r is Ok,
        given is Some ==> r == Ok::<Option<PayoutMethodData>, PayoutError>(given),
        given is None && payout_token is None ==> *final(store) == *old(store) && r == Ok::<
            Option<PayoutMethodData>,
            PayoutError,
        >(None),
        match (given, payout_token) {
            (Some(md), Some(t)) => final(store).vault@.contains(
                crate::records::VaultEntry { merchant_id, customer_id, token: t, method_data: md },
            ),
            (Some(_), None) => *final(store) == *old(store),
            (None, Some(t)) => *final(store) == *old(store) && (old(store).has_vault_entry(
                merchant_id,
                t,
            ) ==> (r matches Ok(o) && o is Some)) && (!old(store).has_vault_entry(merchant_id, t)
                ==> r == Ok::<Option<PayoutMethodData>, PayoutError>(None)) && (match r {
                Ok(Some(m)) => exists|i: int|
                    0 <= i < old(store).vault@.len() && crate::store::vault_key_matches(
                        old(store).vault@[i],
                        merchant_id,
                        t,
                    ) && old(store).vault@[i].method_data == m,
                _ => true,
            }),
            (None, None) => true,
        },
{
    match (given, payout_token) {
        (Some(md), Some(t)) => {
            store.upsert_vault_entry(
                crate::records::VaultEntry { merchant_id, customer_id, token: t, method_data: md },
            );
            Ok(Some(md))
        },
        (Some(md), None) => Ok(Some(md)),
        (None, Some(t)) => {
            match store.find_vault_entry(merchant_id, t) {
                Some(entry) => {
                    proof {
                        let v = choose|i: int|
                            0 <= i < store.vault@.len() && store.vault@[i] == entry;
                        assert(crate::store::vault_key_matches(store.vault@[v], merchant_id, t));
                    }
                    Ok(Some(entry.method_data))
                },
                None => Ok(None),
            }
        },
        (None, None) => Ok(None),
    }
}

/// Dropping consumed outcomes keeps a benign queue benign.
pub proof fn lemma_benign_skip(q0: Seq<ConnectorOutcome>, q1: Seq<ConnectorOutcome>, n: int)
    requires
        0 <= n <= q0.len(),
        q1 == q0.skip(n),
        forall|k: int| 0 <= k < q0.len() ==> outcome_benign(#[trigger] q0[k]),
    ensures
        forall|k: int| 0 <= k < q1.len() ==> outcome_benign(#[trigger] q1[k]),
{
    assert forall|k: int| 0 <= k < q1.len() implies outcome_benign(q1[k]) by {
        assert(q1[k] == q0[k + n]);
    }
}

/// The pass can resolve payout method data without asking the caller: either
/// the aggregate already holds it, or the attempt's token is in the vault.
pub open spec fn spec_resolvable_method_data(store: PayoutStore, data: PayoutData) -> bool {
    data.payout_method_data is Some || (match data.payout_attempt.payout_token {
        Some(t) => store.has_vault_entry(data.payouts.merchant_id, t),
        None => false,
    })
}

/// One orchestration pass against one connector: records the routing choice,
/// resolves method data, then runs eligibility, recipient creation,
/// disbursement-account creation and payout creation in that fixed order,
/// each gated by the current status and the termination flag, and fulfills
/// immediately when the payout is configured to auto-fulfill.
#[verifier::rlimit(100)]
#[verifier::spinoff_prover]
pub fn call_connector_payout(
    store: &mut PayoutStore,
    gw: &mut ConnectorGateway,
    config: &PayoutsConfig,
    connector: &ConnectorData,
    data: &mut PayoutData,
    now: u64,
) -> (r: Result<(), PayoutError>)
    requires
        old(store).wf(),
        aggregate_consistent(*old(store), *old(data)),
    ensures
        final(store).wf(),
        aggregate_consistent(*final(store), *final(data)),
        collateral_unchanged(*old(store), *final(store)),
        final(data).payouts.payout_id == old(data).payouts.payout_id,
        final(data).payouts.merchant_id == old(data).payouts.merchant_id,
        final(data).payouts.attempt_count == old(data).payouts.attempt_count,
        final(data).payouts.auto_fulfill == old(data).payouts.auto_fulfill,
        final(data).payout_attempt.connector == Some(connector.connector_name),
        // After any completed sub-flow the attempt and the payout agree on the
        // status; a pass that persisted nothing leaves both as they were.
        statuses_agree(*final(data)) || (final(data).payout_attempt.status == old(
            data,
        ).payout_attempt.status && final(data).payouts.status == old(data).payouts.status),
        // An instant-payout connector never receives a creation call.
        connector.capabilities.instant_payout ==> forall|k: int|
            old(gw).log@.len() <= k < final(gw).log@.len() ==> final(gw).log@[k]
                != PayoutOperation::Create,
        connector.capabilities.instant_payout ==> !ops_since(*old(gw), *final(gw)).contains(
            PayoutOperation::Create,
        ),
        // An ineligible answer ends the pass: the eligibility call is the only
        // operation dispatched, the persisted status is error-classified, and
        // the pass surfaces the failure.
        ({
            &&& !old(data).should_terminate
            &&& old(data).payout_attempt.is_eligible is None
            &&& connector.capabilities.eligibility
            &&& spec_resolvable_method_data(*old(store), *old(data))
            &&& head_outcome_is_success(*old(gw))
            &&& head_success(*old(gw)).payout_eligible == Some(false)
        }) ==> ({
            &&& r is Err
            &&& spec_is_err_state(final(data).payout_attempt.status)
            &&& statuses_agree(*final(data))
            &&& ops_since(*old(gw), *final(gw)) =~= seq![PayoutOperation::Eligibility]
        }),
        // The sub-flows run in the fixed order — eligibility, recipient
        // creation, disbursement-account creation, quote, creation,
        // fulfillment — with at most one call each.
        forall|i: int, j: int|
            #![trigger final(gw).log@[i], final(gw).log@[j]]
            old(gw).log@.len() <= i < j < final(gw).log@.len() ==> op_rank(final(gw).log@[i])
                < op_rank(final(gw).log@[j]),
        // A pass already terminated dispatches nothing and changes no status.
        old(data).should_terminate ==> final(gw).log@ == old(gw).log@
            && final(data).payout_attempt.status == old(data).payout_attempt.status
            && final(data).payouts.status == old(data).payouts.status
            && final(data).should_terminate,
        // Fulfillment is dispatched only for auto-fulfilling payouts…
        !old(data).payouts.auto_fulfill ==> forall|k: int|
            old(gw).log@.len() <= k < final(gw).log@.len() ==> final(gw).log@[k]
                != PayoutOperation::Fulfill,
        !old(data).payouts.auto_fulfill ==> !ops_since(*old(gw), *final(gw)).contains(
            PayoutOperation::Fulfill,
        ),
        // …and always runs when the pass ends unterminated at
        // RequiresFulfillment.
        (r is Ok && old(data).payouts.auto_fulfill && !final(data).should_terminate
            && !ops_since(*old(gw), *final(gw)).contains(PayoutOperation::Fulfill))
            ==> final(data).payout_attempt.status != PayoutStatus::RequiresFulfillment,
        // A pass over benign connector answers succeeds, and its resulting
        // status is a function of the capabilities and the entry status.
        ({
            &&& !old(data).should_terminate
            &&& !spec_is_err_state(old(data).payout_attempt.status)
            &&& old(data).payout_attempt.is_eligible != Some(false)
            &&& spec_resolvable_method_data(*old(store), *old(data))
            &&& config.payout_eligibility
            &&& benign_queue(*old(gw))
            &&& old(gw).outcomes@.len() >= 5
        }) ==> r is Ok && final(data).payout_attempt.status == benign_pass_status(
            connector.capabilities,
            old(data).payout_attempt.status,
        ),
{
    // Record which connector this attempt runs under.
    let needs_routing_update = match data.payout_attempt.connector {
        Some(c) => c != connector.connector_name,
        None => true,
    };
    if needs_routing_update {
        let updated = PayoutAttemptRecord {
            connector: Some(connector.connector_name),
            merchant_connector_id: connector.merchant_connector_id,
            ..data.payout_attempt.duplicate()
        };
        proof {
            let a = data.payout_attempt;
            assert(store.attempts@.contains(a));
            let i = choose|i: int| 0 <= i < store.attempts@.len() && store.attempts@[i] == a;
            assert(crate::store::attempt_key_matches(
                store.attempts@[i],
                updated.merchant_id,
                updated.payout_id,
                updated.attempt_number,
            ));
            assert(store.has_attempt(updated.merchant_id, updated.payout_id, updated.attempt_number));
        }
        store.replace_payout_attempt(&updated);
        data.payout_attempt = updated;
    }
    // Resolve the payout method data.
    if data.payout_method_data.is_none() || data.payout_attempt.payout_token.is_none() {
        let resolved = match make_payout_method_data(
            store,
            data.payout_method_data,
            data.payout_attempt.payout_token,
            data.payouts.merchant_id,
            data.payouts.customer_id,
        ) {
            Ok(o) => o,
            Err(e) => {
                return Err(e);
            },
        };
        match resolved {
            Some(md) => {
                data.payout_method_data = Some(md);
            },
            None => {
                return Err(
                    PayoutError::MissingRequiredField {
                        field_name: "payout_method_data".to_owned(),
                    },
                );
            },
        }
    }
    execute_pass_sub_flows(store, gw, config, connector, data, now)
}

/// The gated sub-flow sequence of a pass, in the fixed order, against a
/// connector already recorded on the attempt.
#[verifier::rlimit(100)]
#[verifier::spinoff_prover]
fn execute_pass_sub_flows(
    store: &mut PayoutStore,
    gw: &mut ConnectorGateway,
    config: &PayoutsConfig,
    connector: &ConnectorData,
    data: &mut PayoutData,
    now: u64,
) -> (r: Result<(), PayoutError>)
    requires
        old(store).wf(),
        aggregate_consistent(*old(store), *old(data)),
    ensures
        final(store).wf(),
        aggregate_consistent(*final(store), *final(data)),
        collateral_unchanged(*old(store), *final(store)),
        final(data).payouts.payout_id == old(data).payouts.payout_id,
        final(data).payouts.merchant_id == old(data).payouts.merchant_id,
        final(data).payouts.attempt_count == old(data).payouts.attempt_count,
        final(data).payouts.auto_fulfill == old(data).payouts.auto_fulfill,
        final(data).payout_attempt.connector == old(data).payout_attempt.connector,
        // After any completed sub-flow the attempt and the payout agree on the
        // status; a pass that persisted nothing leaves both as they were.
        statuses_agree(*final(data)) || (final(data).payout_attempt.status == old(
            data,
        ).payout_attempt.status && final(data).payouts.status == old(data).payouts.status),
        // An instant-payout connector never receives a creation call.
        connector.capabilities.instant_payout ==> forall|k: int|
            old(gw).log@.len() <= k < final(gw).log@.len() ==> final(gw).log@[k]
                != PayoutOperation::Create,
        connector.capabilities.instant_payout ==> !ops_since(*old(gw), *final(gw)).contains(
            PayoutOperation::Create,
        ),
        // An ineligible answer ends the pass: the eligibility call is the only
        // operation dispatched, the persisted status is error-classified, and
        // the pass surfaces the failure.
        ({
            &&& !old(data).should_terminate
            &&& old(data).payout_attempt.is_eligible is None
            &&& connector.capabilities.eligibility
            &&& old(data).payout_method_data is Some
            &&& head_outcome_is_success(*old(gw))
            &&& head_success(*old(gw)).payout_eligible == Some(false)
        }) ==> ({
            &&& r is Err
            &&& spec_is_err_state(final(data).payout_attempt.status)
            &&& statuses_agree(*final(data))
            &&& ops_since(*old(gw), *final(gw)) =~= seq![PayoutOperation::Eligibility]
        }),
        // The sub-flows run in the fixed order — eligibility, recipient
        // creation, disbursement-account creation, quote, creation,
        // fulfillment — with at most one call each.
        forall|i: int, j: int|
            #![trigger final(gw).log@[i], final(gw).log@[j]]
            old(gw).log@.len() <= i < j < final(gw).log@.len() ==> op_rank(final(gw).log@[i])
                < op_rank(final(gw).log@[j]),
        // A pass already terminated dispatches nothing and changes no status.
        old(data).should_terminate ==> final(gw).log@ == old(gw).log@
            && final(data).payout_attempt.status == old(data).payout_attempt.status
            && final(data).payouts.status == old(data).payouts.status
            && final(data).should_terminate,
        // Fulfillment is dispatched only for auto-fulfilling payouts…
        !old(data).payouts.auto_fulfill ==> forall|k: int|
            old(gw).log@.len() <= k < final(gw).log@.len() ==> final(gw).log@[k]
                != PayoutOperation::Fulfill,
        !old(data).payouts.auto_fulfill ==> !ops_since(*old(gw), *final(gw)).contains(
            PayoutOperation::Fulfill,
        ),
        // …and always runs when the pass ends unterminated at
        // RequiresFulfillment.
        (r is Ok && old(data).payouts.auto_fulfill && !final(data).should_terminate
            && !ops_since(*old(gw), *final(gw)).contains(PayoutOperation::Fulfill))
            ==> final(data).payout_attempt.status != PayoutStatus::RequiresFulfillment,
        // A pass over benign connector answers succeeds, and its resulting
        // status is a function of the capabilities and the entry status.
        ({
            &&& !old(data).should_terminate
            &&& !spec_is_err_state(old(data).payout_attempt.status)
            &&& old(data).payout_attempt.is_eligible != Some(false)
            &&& old(data).payout_method_data is Some
            &&& config.payout_eligibility
            &&& benign_queue(*old(gw))
            &&& old(gw).outcomes@.len() >= 5
        }) ==> r is Ok && final(data).payout_attempt.status == benign_pass_status(
            connector.capabilities,
            old(data).payout_attempt.status,
        ),
{
    complete_payout_eligibility(store, gw, config, connector, data)?;
    complete_create_recipient(store, gw, connector, data, now)?;
    complete_create_recipient_disburse_account(store, gw, connector, data)?;
    complete_create_payout(store, gw, connector, data)?;
    proof {
        if benign_queue(*old(gw)) {
            let n = old(gw).outcomes@.len() - gw.outcomes@.len();
            assert(gw.outcomes@ =~= old(gw).outcomes@.skip(n));
            lemma_benign_skip(old(gw).outcomes@, gw.outcomes@, n);
        }
    }
    if !data.should_terminate && data.payouts.auto_fulfill && matches!(
        data.payout_attempt.status,
        PayoutStatus::RequiresFulfillment,
    ) {
        fulfill_payout(store, gw, data)?;
        proof {
            assert(gw.log@[gw.log@.len() - 1] == PayoutOperation::Fulfill);
            assert(ops_since(*old(gw), *gw)[gw.log@.len() - 1 - old(gw).log@.len()]
                == PayoutOperation::Fulfill);
            assert(ops_since(*old(gw), *gw).contains(PayoutOperation::Fulfill));
        }
    }
    Ok(())
}


/// Attempt/payout consistency: once a sub-flow has completed, the aggregate
/// mirrors the store and both records carry one status — so reading the
/// payout and its current attempt back from storage gives equal statuses.
pub proof fn lemma_store_reflects_status(store: PayoutStore, data: PayoutData)
    requires
        store.wf(),
        aggregate_consistent(store, data),
        statuses_agree(data),
    ensures
        store.has_payout(data.payouts.merchant_id, data.payouts.payout_id),
        store.has_attempt(
            data.payouts.merchant_id,
            data.payouts.payout_id,
            data.payouts.attempt_count,
        ),
        store.spec_payout(data.payouts.merchant_id, data.payouts.payout_id) == data.payouts,
        store.spec_attempt(
            data.payouts.merchant_id,
            data.payouts.payout_id,
            data.payouts.attempt_count,
        ) == data.payout_attempt,
        store.spec_payout(data.payouts.merchant_id, data.payouts.payout_id).status
            == store.spec_attempt(
            data.payouts.merchant_id,
            data.payouts.payout_id,
            data.payouts.attempt_count,
        ).status,
{
    store.lemma_spec_payout(data.payouts);
    store.lemma_spec_attempt(data.payout_attempt);
}

} // verus!
