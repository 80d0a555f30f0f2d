//! The orchestration entry points: routing resolution, the retry/failover
//! policy, and the request-level payout operations.

use vstd::prelude::*;

use crate::api::{
    ConnectorChoice, FreshIds, GsmConfig, PayoutCreateRequest, PayoutCreateResponse,
    PayoutLinkResponse, PayoutRequest, PayoutsConfig,
};
use crate::connector::{
    ConnectorCallType, ConnectorData, ConnectorGateway, ConnectorQueue, ConnectorRegistry,
};
use crate::error::PayoutError;
use crate::flows::{
    aggregate_consistent, call_connector_payout, collateral_unchanged, make_payout_method_data,
    statuses_agree, PayoutData,
};
use crate::records::{
    AddressRecord, CustomerRecord, MerchantAccount, PayoutAttemptRecord, PayoutsRecord,
    RoutableConnectorChoice,
};
use crate::status::PayoutStatus;
use crate::store::PayoutStore;
use crate::types::{clone_opt_string, ConnectorName, EntityType, PayoutMethodData};

verus! {

/// Hands out the next connector candidate; running out of candidates is an
/// internal error.
pub fn get_next_connector(connectors: &mut ConnectorQueue) -> (r: Result<
    ConnectorData,
    PayoutError,
>)
    requires
        old(connectors).wf(),
    ensures
        final(connectors).wf(),
        old(connectors).remaining().len() > 0 ==> r == Ok::<ConnectorData, PayoutError>(
            old(connectors).remaining()[0],
        ) && final(connectors).remaining() == old(connectors).remaining().drop_first(),
        old(connectors).remaining().len() == 0 ==> (r matches Err(e) && e is InternalServerError
            && final(connectors).remaining() == old(connectors).remaining()),
{
    match connectors.next_connector() {
        Some(d) => Ok(d),
        None => Err(PayoutError::InternalServerError),
    }
}

/// A routed choice resolves against the registry: capabilities come from the
/// registry entry, and the routing's merchant-connector id wins when present.
pub open spec fn spec_registry_resolves(
    registry: ConnectorRegistry,
    rc: RoutableConnectorChoice,
    d: ConnectorData,
) -> bool {
    &&& d.connector_name == rc.connector
    &&& exists|i: int|
        0 <= i < registry.entries@.len() && registry.entries@[i].name == rc.connector
            && d.capabilities == registry.entries@[i].capabilities && d.merchant_connector_id == (
        if rc.merchant_connector_id is Some {
            rc.merchant_connector_id
        } else {
            registry.entries@[i].merchant_connector_id
        })
}

fn resolve_candidate(registry: &ConnectorRegistry, rc: RoutableConnectorChoice) -> (r: Option<
    ConnectorData,
>)
    ensures
        match r {
            Some(d) => spec_registry_resolves(*registry, rc, d),
            None => !registry.has_entry(rc.connector),
        },
{
    match registry.lookup(rc.connector) {
        Some(d) => {
            let merchant_connector_id = match rc.merchant_connector_id {
                Some(id) => Some(id),
                None => d.merchant_connector_id,
            };
            Some(ConnectorData { merchant_connector_id, ..d })
        },
        None => None,
    }
}

/// A connector name passes the eligible-connector allowlist.
pub open spec fn spec_name_allowed(name: ConnectorName, eligible: Option<Seq<ConnectorName>>) -> bool {
    match eligible {
        Some(s) => s.contains(name),
        None => true,
    }
}

/// The view of an optional allowlist.
pub open spec fn spec_eligible_view(eligible: Option<&Vec<ConnectorName>>) -> Option<
    Seq<ConnectorName>,
> {
    match eligible {
        Some(v) => Some(v@),
        None => None,
    }
}

/// The candidates routing produces, before the allowlist: an explicitly
/// requested connector alone, else the straight-through priority list, else
/// the merchant's default list.
pub open spec fn spec_routing_candidates(
    connector: Option<ConnectorName>,
    routing: ConnectorChoice,
    fallback: Seq<RoutableConnectorChoice>,
) -> Seq<RoutableConnectorChoice> {
    match connector {
        Some(c) => seq![RoutableConnectorChoice { connector: c, merchant_connector_id: None }],
        None => match routing {
            ConnectorChoice::StraightThrough(v) => v@,
            ConnectorChoice::Decide => fallback,
            ConnectorChoice::SessionMultiple => Seq::empty(),
        },
    }
}

/// The candidate list of a pass: routing's candidates that pass the allowlist.
pub open spec fn spec_pass_candidates(
    connector: Option<ConnectorName>,
    routing: ConnectorChoice,
    fallback: Seq<RoutableConnectorChoice>,
    eligible: Option<Seq<ConnectorName>>,
) -> Seq<RoutableConnectorChoice> {
    spec_routing_candidates(connector, routing, fallback).filter(
        |rc: RoutableConnectorChoice| spec_name_allowed(rc.connector, eligible),
    )
}

fn copy_choices(v: &Vec<RoutableConnectorChoice>) -> (r: Vec<RoutableConnectorChoice>)
    ensures
        r@ == v@,
{
    let mut r: Vec<RoutableConnectorChoice> = Vec::new();
    let mut i: usize = 0;
    while i < v.len()
        invariant
            i <= v.len(),
            r@ == v@.subrange(0, i as int),
        decreases v.len() - i,
    {
        r.push(v[i]);
        i = i + 1;
        proof {
            assert(r@ =~= v@.subrange(0, i as int));
        }
    }
    proof {
        assert(r@ =~= v@);
    }
    r
}

fn name_is_allowed(name: ConnectorName, eligible: Option<&Vec<ConnectorName>>) -> (r: bool)
    ensures
        r == spec_name_allowed(name, spec_eligible_view(eligible)),
{
    match eligible {
        Some(v) => {
            let mut i: usize = 0;
            while i < v.len()
                invariant
                    i <= v.len(),
                    spec_eligible_view(eligible) == Some(v@),
                    forall|j: int| 0 <= j < i ==> v@[j] != name,
                decreases v.len() - i,
            {
                if v[i] == name {
                    proof {
                        assert(v@[i as int] == name);
                        assert(v@.contains(name));
                    }
                    return true;
                }
                i = i + 1;
            }
            false
        },
        None => true,
    }
}

/// Resolves which connector(s) a pass will try: one of `PreDetermined` (an
/// explicitly requested connector, no failover) or `Retryable` (the routed
/// candidate list, in routing's order). A multi-session routing shape is
/// rejected for payouts. Every returned candidate passed the allowlist and is
/// resolved against the registry; an unregistered candidate is an error.
pub fn get_connector_choice(
    registry: &ConnectorRegistry,
    connector: Option<ConnectorName>,
    routing: &ConnectorChoice,
    default_fallback: &Vec<RoutableConnectorChoice>,
    eligible_connectors: Option<&Vec<ConnectorName>>,
) -> (r: Result<ConnectorCallType, PayoutError>)
    ensures
        *routing is SessionMultiple ==> (r matches Err(e) && e is InternalServerError),
        !(*routing is SessionMultiple) ==> ({
            let cands = spec_pass_candidates(
                connector,
                *routing,
                default_fallback@,
                spec_eligible_view(eligible_connectors),
            );
            &&& (r is Ok <==> cands.len() > 0 && forall|i: int|
                0 <= i < cands.len() ==> registry.has_entry(#[trigger] cands[i].connector))
            &&& (r matches Err(e) ==> e is InternalServerError)
            &&& (r matches Ok(ct) ==> !(ct is SessionMultiple))
            &&& (r matches Ok(ct) ==> connector is Some ==> (ct matches
                ConnectorCallType::PreDetermined(d) && connector == Some(d.connector_name)
                && spec_registry_resolves(*registry, cands[0], d)))
            &&& (r matches Ok(ct) ==> connector is None ==> (ct matches ConnectorCallType::Retryable(v)
                && v@.len() == cands.len() && forall|i: int|
                0 <= i < cands.len() ==> spec_registry_resolves(
                    *registry,
                    cands[i],
                    #[trigger] v@[i],
                )))
        }),
{
    if matches!(routing, ConnectorChoice::SessionMultiple) {
        return Err(PayoutError::InternalServerError);
    }
    let base: Vec<RoutableConnectorChoice> = match connector {
        Some(c) => {
            let mut b: Vec<RoutableConnectorChoice> = Vec::new();
            b.push(RoutableConnectorChoice { connector: c, merchant_connector_id: None });
            proof {
                assert(b@ =~= spec_routing_candidates(connector, *routing, default_fallback@));
            }
            b
        },
        None => match routing {
            ConnectorChoice::SessionMultiple => {
                return Err(PayoutError::InternalServerError);
            },
            ConnectorChoice::StraightThrough(v) => copy_choices(v),
            ConnectorChoice::Decide => copy_choices(default_fallback),
        },
    };
    let ghost pred = |rc: RoutableConnectorChoice|
        spec_name_allowed(rc.connector, spec_eligible_view(eligible_connectors));
    let mut filtered: Vec<RoutableConnectorChoice> = Vec::new();
    let mut i: usize = 0;
    while i < base.len()
        invariant
            i <= base.len(),
            pred == (|rc: RoutableConnectorChoice|
                spec_name_allowed(rc.connector, spec_eligible_view(eligible_connectors))),
            filtered@ == base@.take(i as int).filter(pred),
        decreases base.len() - i,
    {
        proof {
            base@.take(i as int).lemma_filter_push(base@[i as int], pred);
            assert(base@.take(i as int + 1) =~= base@.take(i as int).push(base@[i as int]));
        }
        if name_is_allowed(base[i].connector, eligible_connectors) {
            filtered.push(base[i]);
        }
        i = i + 1;
    }
    proof {
        assert(base@.take(base@.len() as int) =~= base@);
    }
    let mut resolved: Vec<ConnectorData> = Vec::new();
    let mut k: usize = 0;
    while k < filtered.len()
        invariant
            k <= filtered.len(),
            resolved@.len() == k,
            filtered@ == spec_pass_candidates(
                connector,
                *routing,
                default_fallback@,
                spec_eligible_view(eligible_connectors),
            ),
            !(*routing is SessionMultiple),
            forall|j: int|
                0 <= j < k ==> spec_registry_resolves(
                    *registry,
                    filtered@[j],
                    #[trigger] resolved@[j],
                ),
        decreases filtered.len() - k,
    {
        match resolve_candidate(registry, filtered[k]) {
            Some(d) => {
                resolved.push(d);
            },
            None => {
                return Err(PayoutError::InternalServerError);
            },
        }
        k = k + 1;
    }
    proof {
        let cands = spec_pass_candidates(
            connector,
            *routing,
            default_fallback@,
            spec_eligible_view(eligible_connectors),
        );
        assert forall|i: int| 0 <= i < cands.len() implies registry.has_entry(
            #[trigger] cands[i].connector,
        ) by {
            assert(spec_registry_resolves(*registry, filtered@[i], resolved@[i]));
        }
    }
    if resolved.len() == 0 {
        return Err(PayoutError::InternalServerError);
    }
    match connector {
        Some(c) => {
            let d = resolved[0];
            proof {
                let cands = spec_pass_candidates(
                    connector,
                    *routing,
                    default_fallback@,
                    spec_eligible_view(eligible_connectors),
                );
                assert(cands.contains(cands[0]));
                base@.lemma_filter_contains_rev(pred, cands[0]);
                assert(base@.contains(cands[0]));
                assert(base@.len() == 1);
                assert(cands[0] == base@[0]);
                assert(d.connector_name == c);
            }
            Ok(ConnectorCallType::PreDetermined(d))
        },
        None => Ok(ConnectorCallType::Retryable(resolved)),
    }
}

/// Executes the resolved connector choice. A pre-determined connector is
/// called once with no failover. A retryable list calls its head; when the
/// merchant's retry configuration allows multi-connector escalation and the
/// attempt failed, the next candidates are tried in order, each on a fresh
/// attempt with an incremented attempt count and a full sub-flow replay.
#[verifier::rlimit(100)]
#[verifier::spinoff_prover]
pub fn make_connector_decision(
    store: &mut PayoutStore,
    gw: &mut ConnectorGateway,
    config: &PayoutsConfig,
    gsm: &GsmConfig,
    connector_call_type: ConnectorCallType,
    data: &mut PayoutData,
    now: u64,
) -> (r: Result<(), PayoutError>)
    requires
        old(store).wf(),
        aggregate_consistent(*old(store), *old(data)),
    ensures
        final(store).wf(),
        aggregate_consistent(*final(store), *final(data)),
        collateral_unchanged(*old(store), *final(store)),
        statuses_agree(*final(data)) || (final(data).payout_attempt.status
            == old(data).payout_attempt.status && final(data).payouts.status
            == old(data).payouts.status),
        final(data).payouts.payout_id == old(data).payouts.payout_id,
        final(data).payouts.merchant_id == old(data).payouts.merchant_id,
        connector_call_type is SessionMultiple ==> (r matches Err(e) && e is InternalServerError)
            && *final(store) == *old(store) && *final(gw) == *old(gw) && *final(data) == *old(data),
        connector_call_type matches ConnectorCallType::PreDetermined(d)
            ==> final(data).payout_attempt.connector == Some(d.connector_name),
        connector_call_type matches ConnectorCallType::PreDetermined(d)
            ==> d.capabilities.instant_payout ==> !crate::connector::ops_since(
            *old(gw),
            *final(gw),
        ).contains(crate::connector::PayoutOperation::Create),
        // A pre-determined connector gets exactly one pass: no new attempt.
        connector_call_type is PreDetermined
            ==> final(data).payouts.attempt_count == old(data).payouts.attempt_count,
        // Escalation to further attempts happens only under the retry config.
        !gsm.multi_connector
            ==> final(data).payouts.attempt_count == old(data).payouts.attempt_count,
        // A retryable list is executed head first.
        connector_call_type matches ConnectorCallType::Retryable(v) ==> (v@.len() == 0 ==> (r
            matches Err(e) && e is InternalServerError) && *final(store) == *old(store)
            && *final(gw) == *old(gw) && *final(data) == *old(data)),
        connector_call_type matches ConnectorCallType::Retryable(v) ==> (v@.len() > 0
            && !gsm.multi_connector ==> final(data).payout_attempt.connector == Some(
            v@[0].connector_name,
        )),
        // A pass over benign answers succeeds against the chosen connector.
        ({
            &&& !old(data).should_terminate
            &&& !crate::status::spec_is_err_state(old(data).payout_attempt.status)
            &&& old(data).payout_attempt.is_eligible != Some(false)
            &&& crate::flows::spec_resolvable_method_data(*old(store), *old(data))
            &&& config.payout_eligibility
            &&& crate::flows::benign_queue(*old(gw))
            &&& old(gw).outcomes@.len() >= 5
        }) ==> ({
            &&& (connector_call_type matches ConnectorCallType::PreDetermined(d) ==> r is Ok
                && final(data).payout_attempt.status == crate::flows::benign_pass_status(
                d.capabilities,
                old(data).payout_attempt.status,
            ))
            &&& (connector_call_type matches ConnectorCallType::Retryable(v) ==> v@.len() > 0
                ==> (r is Ok && final(data).payout_attempt.status
                == crate::flows::benign_pass_status(
                v@[0].capabilities,
                old(data).payout_attempt.status,
            )))
        }),
{
    match connector_call_type {
        ConnectorCallType::PreDetermined(connector_data) => {
            call_connector_payout(store, gw, config, &connector_data, data, now)?;
            Ok(())
        },
        ConnectorCallType::Retryable(connectors) => {
            let mut queue = ConnectorQueue::new(connectors);
            let connector_data = get_next_connector(&mut queue)?;
            call_connector_payout(store, gw, config, &connector_data, data, now)?;
            let ghost entry_attempt_status = data.payout_attempt.status;
            let ghost entry_payouts_status = data.payouts.status;
            let ghost entry_attempt_count = data.payouts.attempt_count;
            let ghost entry_connector = data.payout_attempt.connector;
            if gsm.multi_connector {
                loop
                    invariant
                        gsm.multi_connector,
                        (connector_call_type matches ConnectorCallType::Retryable(vv) && vv@.len()
                            > 0),
                        ({
                            &&& !old(data).should_terminate
                            &&& !crate::status::spec_is_err_state(old(data).payout_attempt.status)
                            &&& old(data).payout_attempt.is_eligible != Some(false)
                            &&& crate::flows::spec_resolvable_method_data(*old(store), *old(data))
                            &&& config.payout_eligibility
                            &&& crate::flows::benign_queue(*old(gw))
                            &&& old(gw).outcomes@.len() >= 5
                        }) ==> (connector_call_type matches ConnectorCallType::Retryable(vv)
                            ==> entry_attempt_status == crate::flows::benign_pass_status(
                            vv@[0].capabilities,
                            old(data).payout_attempt.status,
                        ) && entry_attempt_status != PayoutStatus::Failed),
                        store.wf(),
                        aggregate_consistent(*store, *data),
                        queue.wf(),
                        collateral_unchanged(*old(store), *store),
                        entry_attempt_status != PayoutStatus::Failed ==> data.payout_attempt.status
                            == entry_attempt_status && data.payouts.status == entry_payouts_status
                            && data.payouts.attempt_count == entry_attempt_count
                            && data.payout_attempt.connector == entry_connector,
                        statuses_agree(*data) || (data.payout_attempt.status
                            == old(data).payout_attempt.status && data.payouts.status
                            == old(data).payouts.status),
                        data.payouts.payout_id == old(data).payouts.payout_id,
                        data.payouts.merchant_id == old(data).payouts.merchant_id,
                    decreases queue.remaining().len(),
                {
                    if !matches!(data.payout_attempt.status, PayoutStatus::Failed) {
                        break;
                    }
                    if data.payouts.attempt_count == u32::MAX {
                        break;
                    }
                    let next = match queue.next_connector() {
                        Some(d) => d,
                        None => {
                            break;
                        },
                    };
                    // A fresh attempt for the next candidate: the per-try
                    // fields are reset and the attempt count moves on.
                    let new_number = data.payouts.attempt_count + 1;
                    let new_attempt = PayoutAttemptRecord {
                        attempt_number: new_number,
                        status: PayoutStatus::RequiresCreation,
                        connector: None,
                        merchant_connector_id: None,
                        connector_payout_id: None,
                        error_code: None,
                        error_message: None,
                        is_eligible: None,
                        routing_info: None,
                        ..data.payout_attempt.duplicate()
                    };
                    match store.insert_payout_attempt(&new_attempt) {
                        Ok(()) => {},
                        Err(_) => {
                            return Err(PayoutError::InternalServerError);
                        },
                    }
                    let new_payouts = PayoutsRecord {
                        attempt_count: new_number,
                        status: PayoutStatus::RequiresCreation,
                        ..data.payouts.duplicate()
                    };
                    proof {
                        let p = data.payouts;
                        assert(store.payouts@.contains(p));
                        let i = choose|i: int|
                            0 <= i < store.payouts@.len() && store.payouts@[i] == p;
                        assert(crate::store::payout_key_matches(
                            store.payouts@[i],
                            new_payouts.merchant_id,
                            new_payouts.payout_id,
                        ));
                        assert(store.has_payout(new_payouts.merchant_id, new_payouts.payout_id));
                        assert(store.attempts@[store.attempts@.len() - 1] == new_attempt);
                        assert(store.attempts@.contains(new_attempt));
                    }
                    store.replace_payout(&new_payouts);
                    data.payout_attempt = new_attempt;
                    data.payouts = new_payouts;
                    call_connector_payout(store, gw, config, &next, data, now)?;
                }
            }
            Ok(())
        },
        ConnectorCallType::SessionMultiple => Err(PayoutError::InternalServerError),
    }
}

/// One orchestration pass: resolve the connector choice for the current
/// attempt, then execute it with the configured retry policy.
#[verifier::rlimit(100)]
#[verifier::spinoff_prover]
pub fn payouts_core(
    store: &mut PayoutStore,
    gw: &mut ConnectorGateway,
    registry: &ConnectorRegistry,
    config: &PayoutsConfig,
    gsm: &GsmConfig,
    routing: &ConnectorChoice,
    default_fallback: &Vec<RoutableConnectorChoice>,
    eligible_connectors: Option<&Vec<ConnectorName>>,
    data: &mut PayoutData,
    now: u64,
) -> (r: Result<(), PayoutError>)
    requires
        old(store).wf(),
        aggregate_consistent(*old(store), *old(data)),
    ensures
        final(store).wf(),
        aggregate_consistent(*final(store), *final(data)),
        collateral_unchanged(*old(store), *final(store)),
        statuses_agree(*final(data)) || (final(data).payout_attempt.status
            == old(data).payout_attempt.status && final(data).payouts.status
            == old(data).payouts.status),
        final(data).payouts.payout_id == old(data).payouts.payout_id,
        final(data).payouts.merchant_id == old(data).payouts.merchant_id,
        *routing is SessionMultiple ==> (r matches Err(e) && e is InternalServerError)
            && *final(store) == *old(store) && *final(gw) == *old(gw) && *final(data) == *old(data),
        // A benign pass over a resolvable candidate list succeeds, and the
        // resulting status follows from the head candidate's capabilities.
        ({
            &&& registry.wf()
            &&& !(*routing is SessionMultiple)
            &&& ({
                let cands = spec_pass_candidates(
                    old(data).payout_attempt.connector,
                    *routing,
                    default_fallback@,
                    spec_eligible_view(eligible_connectors),
                );
                cands.len() > 0 && (forall|i: int|
                    0 <= i < cands.len() ==> registry.has_entry(#[trigger] cands[i].connector))
            })
            &&& !old(data).should_terminate
            &&& !crate::status::spec_is_err_state(old(data).payout_attempt.status)
            &&& old(data).payout_attempt.is_eligible != Some(false)
            &&& crate::flows::spec_resolvable_method_data(*old(store), *old(data))
            &&& config.payout_eligibility
            &&& crate::flows::benign_queue(*old(gw))
            &&& old(gw).outcomes@.len() >= 5
        }) ==> r is Ok && final(data).payout_attempt.status == crate::flows::benign_pass_status(
            registry.spec_caps_of(
                spec_pass_candidates(
                    old(data).payout_attempt.connector,
                    *routing,
                    default_fallback@,
                    spec_eligible_view(eligible_connectors),
                )[0].connector,
            ),
            old(data).payout_attempt.status,
        ),
{
    let connector = data.payout_attempt.connector;
    let connector_call_type = match get_connector_choice(
        registry,
        connector,
        routing,
        default_fallback,
        eligible_connectors,
    ) {
        Ok(ct) => ct,
        Err(e) => {
            return Err(e);
        },
    };
    proof {
        if registry.wf() && !(routing is SessionMultiple) {
            let cands = spec_pass_candidates(
                connector,
                *routing,
                default_fallback@,
                spec_eligible_view(eligible_connectors),
            );
            match &connector_call_type {
                ConnectorCallType::PreDetermined(d) => {
                    if cands.len() > 0 {
                        let i = choose|i: int|
                            0 <= i < registry.entries@.len() && registry.entries@[i].name
                                == cands[0].connector && d.capabilities
                                == registry.entries@[i].capabilities && d.merchant_connector_id == (
                            if cands[0].merchant_connector_id is Some {
                                cands[0].merchant_connector_id
                            } else {
                                registry.entries@[i].merchant_connector_id
                            });
                        registry.lemma_spec_caps_of(i);
                    }
                },
                ConnectorCallType::Retryable(v) => {
                    if cands.len() > 0 && v@.len() > 0 {
                        assert(spec_registry_resolves(*registry, cands[0], v@[0]));
                        let i = choose|i: int|
                            0 <= i < registry.entries@.len() && registry.entries@[i].name
                                == cands[0].connector && v@[0].capabilities
                                == registry.entries@[i].capabilities
                                && v@[0].merchant_connector_id == (
                            if cands[0].merchant_connector_id is Some {
                                cands[0].merchant_connector_id
                            } else {
                                registry.entries@[i].merchant_connector_id
                            });
                        registry.lemma_spec_caps_of(i);
                    }
                },
                ConnectorCallType::SessionMultiple => {},
            }
        }
    }
    make_connector_decision(store, gw, config, gsm, connector_call_type, data, now)
}

/// The payout id a creation request works under: the requested one, else the
/// fresh one.
pub open spec fn spec_create_payout_id(req: PayoutCreateRequest, fresh: FreshIds) -> u64 {
    match req.payout_id {
        Some(p) => p,
        None => fresh.payout_id,
    }
}

/// The payout id a confirm/update request loads: the requested one, else the
/// never-assigned id zero.
pub open spec fn spec_loaded_payout_id(req: PayoutCreateRequest) -> u64 {
    match req.payout_id {
        Some(p) => p,
        None => 0,
    }
}

/// The status a freshly created payout starts in: with method data or a token
/// at hand, confirmation decides between RequiresCreation and
/// RequiresConfirmation; with neither, method data is still owed.
pub open spec fn spec_initial_status(
    req: PayoutCreateRequest,
    stored: Option<PayoutMethodData>,
) -> PayoutStatus {
    if req.payout_method_data is Some || req.payout_token is Some || stored is Some {
        if req.confirm == Some(true) {
            PayoutStatus::RequiresCreation
        } else {
            PayoutStatus::RequiresConfirmation
        }
    } else {
        PayoutStatus::RequiresPayoutMethodData
    }
}

/// The payout and its current attempt exist in the store.
pub open spec fn payout_loadable(store: PayoutStore, merchant_id: u64, payout_id: u64) -> bool {
    store.has_payout(merchant_id, payout_id) && store.has_attempt(
        merchant_id,
        payout_id,
        store.spec_payout(merchant_id, payout_id).attempt_count,
    )
}

/// The payout, its current attempt, its business profile and its payout link
/// (when one is attached) all resolve from the store.
pub open spec fn loadable_full(store: PayoutStore, merchant_id: u64, payout_id: u64) -> bool {
    &&& payout_loadable(store, merchant_id, payout_id)
    &&& profile_ok(
        store,
        store.spec_attempt(
            merchant_id,
            payout_id,
            store.spec_payout(merchant_id, payout_id).attempt_count,
        ).profile_id,
        merchant_id,
    )
    &&& match store.spec_payout(merchant_id, payout_id).payout_link_id {
        Some(lid) => store.has_link(lid),
        None => true,
    }
}

/// The status of the payout's current attempt, as stored.
pub open spec fn stored_status(store: PayoutStore, merchant_id: u64, payout_id: u64) -> PayoutStatus {
    store.spec_attempt(
        merchant_id,
        payout_id,
        store.spec_payout(merchant_id, payout_id).attempt_count,
    ).status
}

/// Validates a creation request before anything is written: the payout id
/// must be fresh, a business profile must be resolvable, and a supplied
/// payout token is resolved against the vault.
pub fn validate_create_request(
    store: &PayoutStore,
    merchant: &MerchantAccount,
    req: &PayoutCreateRequest,
    fresh: &FreshIds,
) -> (r: Result<(u64, u64, Option<PayoutMethodData>), PayoutError>)
    ensures
        r is Ok <==> !store.has_payout(merchant.merchant_id, spec_create_payout_id(*req, *fresh))
            && (req.profile_id is Some || merchant.default_profile_id is Some),
        r matches Err(e) ==> (e is DuplicatePayout || e is MissingRequiredField),
        store.has_payout(merchant.merchant_id, spec_create_payout_id(*req, *fresh)) ==> (r matches
            Err(e) && e is DuplicatePayout),
        r matches Ok(t) ==> ({
            &&& t.0 == spec_create_payout_id(*req, *fresh)
            &&& Some(t.1) == (if req.profile_id is Some {
                req.profile_id
            } else {
                merchant.default_profile_id
            })
            &&& (match req.payout_token {
                Some(tok) => (t.2 is Some <==> store.has_vault_entry(merchant.merchant_id, tok)),
                None => t.2 is None,
            })
        }),
{
    let payout_id = match req.payout_id {
        Some(p) => p,
        None => fresh.payout_id,
    };
    if store.find_payout(merchant.merchant_id, payout_id).is_some() {
        return Err(PayoutError::DuplicatePayout { payout_id });
    }
    let profile_id = match req.profile_id {
        Some(p) => p,
        None => match merchant.default_profile_id {
            Some(p) => p,
            None => {
                return Err(
                    PayoutError::MissingRequiredField { field_name: "profile_id".to_owned() },
                );
            },
        },
    };
    let stored_method_data = match req.payout_token {
        Some(tok) => match store.find_vault_entry(merchant.merchant_id, tok) {
            Some(entry) => Some(entry.method_data),
            None => None,
        },
        None => None,
    };
    Ok((payout_id, profile_id, stored_method_data))
}

/// Finds the request's customer, or registers one from the request's details.
pub fn get_or_create_customer_details(
    store: &mut PayoutStore,
    merchant: &MerchantAccount,
    req: &PayoutCreateRequest,
) -> (r: Result<Option<CustomerRecord>, PayoutError>)
    requires
        old(store).wf(),
    ensures
        final(store).wf(),
        final(store).same_except_customers(*old(store)),
        r is Ok,
        req.customer_id is None ==> *final(store) == *old(store) && (r matches Ok(o) && o is None),
        req.customer_id matches Some(cid) ==> (r matches Ok(o) && o matches Some(c)
            && c.customer_id == cid && c.merchant_id == merchant.merchant_id
            && final(store).has_customer(merchant.merchant_id, cid)),
{
    let cid = match req.customer_id {
        Some(cid) => cid,
        None => {
            return Ok(None);
        },
    };
    match store.find_customer(merchant.merchant_id, cid) {
        Some(c) => {
            proof {
                let i = choose|i: int|
                    0 <= i < store.customers@.len() && crate::records::customer_like(
                        c,
                        store.customers@[i],
                    );
                assert(crate::store::customer_key_matches(
                    store.customers@[i],
                    merchant.merchant_id,
                    cid,
                ));
            }
            Ok(Some(c))
        },
        None => {
            let c = CustomerRecord {
                customer_id: cid,
                merchant_id: merchant.merchant_id,
                name: clone_opt_string(&req.name),
                email: clone_opt_string(&req.email),
                phone: clone_opt_string(&req.phone),
                phone_country_code: clone_opt_string(&req.phone_country_code),
                connector_customers: Vec::new(),
            };
            let returned = c.duplicate();
            match store.insert_customer(c) {
                Ok(()) => {
                    proof {
                        assert(store.customers@[store.customers@.len() - 1].customer_id == cid);
                    }
                    Ok(Some(returned))
                },
                Err(_) => {
                    proof {
                        assert(false);
                    }
                    Err(PayoutError::InternalServerError)
                },
            }
        },
    }
}

/// Creates an address record from the request's billing details, or finds the
/// one already on file.
pub fn create_or_find_address_for_payment_by_request(
    store: &mut PayoutStore,
    billing: Option<&crate::api::BillingDetails>,
    address_id: Option<u64>,
    customer_id: Option<u64>,
    fresh: &FreshIds,
) -> (r: Result<Option<AddressRecord>, PayoutError>)
    requires
        old(store).wf(),
    ensures
        final(store).wf(),
        final(store).same_except_addresses(*old(store)),
        billing is Some && !old(store).has_address(fresh.address_id) ==> (r matches Ok(o)
            && o matches Some(a) && a.address_id == fresh.address_id && a.customer_id == customer_id
            && final(store).has_address(fresh.address_id)),
        billing is Some && old(store).has_address(fresh.address_id) ==> (r matches Err(e)
            && e is InternalServerError) && *final(store) == *old(store),
        billing is None ==> *final(store) == *old(store) && r is Ok && (match address_id {
            Some(id) => (r matches Ok(o) && (o is Some <==> old(store).has_address(id))),
            None => r matches Ok(o) && o is None,
        }),
{
    match billing {
        Some(b) => {
            let a = AddressRecord {
                address_id: fresh.address_id,
                customer_id,
                city: clone_opt_string(&b.city),
                country: clone_opt_string(&b.country),
                line1: clone_opt_string(&b.line1),
                line2: clone_opt_string(&b.line2),
                line3: clone_opt_string(&b.line3),
                zip: clone_opt_string(&b.zip),
                state: clone_opt_string(&b.state),
                first_name: clone_opt_string(&b.first_name),
                last_name: clone_opt_string(&b.last_name),
                phone_number: clone_opt_string(&b.phone_number),
                country_code: clone_opt_string(&b.country_code),
                email: clone_opt_string(&b.email),
            };
            match store.insert_address(&a) {
                Ok(()) => {
                    proof {
                        assert(store.addresses@[store.addresses@.len() - 1].address_id
                            == fresh.address_id);
                    }
                    Ok(Some(a))
                },
                Err(_) => Err(PayoutError::InternalServerError),
            }
        },
        None => match address_id {
            Some(id) => Ok(store.find_address(id)),
            None => Ok(None),
        },
    }
}

/// A business profile under this id exists and belongs to the merchant.
pub open spec fn profile_ok(store: PayoutStore, profile_id: u64, merchant_id: u64) -> bool {
    exists|i: int|
        0 <= i < store.profiles@.len() && store.profiles@[i].profile_id == profile_id
            && store.profiles@[i].merchant_id == merchant_id
}

/// Resolves a business profile and checks it belongs to the merchant.
pub fn validate_and_get_business_profile(
    store: &PayoutStore,
    profile_id: u64,
    merchant_id: u64,
) -> (r: Result<crate::records::BusinessProfileRecord, PayoutError>)
    requires
        store.wf(),
    ensures
        r is Ok <==> profile_ok(*store, profile_id, merchant_id),
        r matches Ok(p) ==> p.profile_id == profile_id && p.merchant_id == merchant_id,
        r matches Err(e) ==> e matches PayoutError::BusinessProfileNotFound { profile_id: pid }
            && pid == profile_id,
{
    match store.find_business_profile(profile_id) {
        Some(p) => {
            proof {
                let i = choose|i: int|
                    0 <= i < store.profiles@.len() && crate::records::profile_like(
                        p,
                        store.profiles@[i],
                    );
                if p.merchant_id == merchant_id {
                    assert(profile_ok(*store, profile_id, merchant_id));
                } else {
                    if profile_ok(*store, profile_id, merchant_id) {
                        let j = choose|j: int|
                            0 <= j < store.profiles@.len() && store.profiles@[j].profile_id
                                == profile_id && store.profiles@[j].merchant_id == merchant_id;
                        assert(i == j);
                        assert(false);
                    }
                }
            }
            if p.merchant_id == merchant_id {
                Ok(p)
            } else {
                Err(PayoutError::BusinessProfileNotFound { profile_id })
            }
        },
        None => Err(PayoutError::BusinessProfileNotFound { profile_id }),
    }
}

/// Creates the payout, its first attempt, the customer and billing address,
/// and the payout link when asked for, and assembles the pass's aggregate.
/// The initial status follows from the request alone: see
/// `spec_initial_status`.
pub fn payout_create_db_entries(
    store: &mut PayoutStore,
    merchant: &MerchantAccount,
    config: &PayoutsConfig,
    req: &PayoutCreateRequest,
    payout_id: u64,
    profile_id: u64,
    stored_payout_method_data: Option<PayoutMethodData>,
    fresh: &FreshIds,
    now: u64,
) -> (r: Result<PayoutData, PayoutError>)
    requires
        old(store).wf(),
    ensures
        final(store).wf(),
        r matches Ok(d) ==> ({
            &&& aggregate_consistent(*final(store), d)
            &&& statuses_agree(d)
            &&& d.payouts.status == spec_initial_status(*req, stored_payout_method_data)
            &&& d.payout_attempt.status == spec_initial_status(*req, stored_payout_method_data)
            &&& d.payouts.payout_id == payout_id
            &&& d.payouts.merchant_id == merchant.merchant_id
            &&& d.payouts.profile_id == profile_id
            &&& d.payouts.attempt_count == 1
            &&& d.payout_attempt.attempt_number == 1
            &&& d.payouts.amount == (match req.amount {
                Some(a) => a,
                None => 0,
            })
            &&& (req.currency matches Some(c) ==> d.payouts.destination_currency == c
                && d.payouts.source_currency == c)
            &&& d.payouts.auto_fulfill == (req.auto_fulfill == Some(true))
            &&& d.payouts.recurring == (req.recurring == Some(true))
            &&& d.payouts.confirm == req.confirm
            &&& d.payouts.client_secret == Some(fresh.client_secret)
            &&& d.payouts.created_at == now
            &&& d.should_terminate == false
            &&& d.payout_attempt.connector is None
            &&& d.payout_attempt.is_eligible is None
            &&& d.payout_attempt.payout_token == req.payout_token
            &&& d.payout_method_data == (if req.payout_method_data is Some {
                req.payout_method_data
            } else {
                stored_payout_method_data
            })
            &&& d.payout_attempt.customer_id == d.payouts.customer_id
            &&& d.payout_attempt.address_id == d.payouts.address_id
            &&& d.payout_attempt.profile_id == d.payouts.profile_id
            &&& (req.payout_link == Some(true) ==> (d.payout_link matches Some(l)
                && d.payouts.payout_link_id == Some(l.link_id)))
            &&& (req.payout_link != Some(true) ==> d.payout_link is None
                && d.payouts.payout_link_id is None)
        }),
        old(store).has_payout(merchant.merchant_id, payout_id) ==> (r matches Err(e)
            && e matches PayoutError::DuplicatePayout { payout_id: p } && p == payout_id),
        req.currency is None && !old(store).has_payout(merchant.merchant_id, payout_id) ==> r
            is Err,
        ({
            &&& !old(store).has_payout(merchant.merchant_id, payout_id)
            &&& !old(store).has_attempt(merchant.merchant_id, payout_id, 1)
            &&& req.customer_id is Some
            &&& profile_ok(*old(store), profile_id, merchant.merchant_id)
            &&& req.billing is Some
            &&& !old(store).has_address(fresh.address_id)
            &&& req.currency is Some
            &&& req.payout_link != Some(true)
        }) ==> r is Ok,
{
    if store.find_payout(merchant.merchant_id, payout_id).is_some() {
        return Err(PayoutError::DuplicatePayout { payout_id });
    }
    let customer = get_or_create_customer_details(store, merchant, req)?;
    let customer_id = match &customer {
        Some(c) => c.customer_id,
        None => {
            return Err(PayoutError::MissingRequiredField { field_name: "customer_id".to_owned() });
        },
    };
    let business_profile = validate_and_get_business_profile(store, profile_id, merchant.merchant_id)?;
    let payout_link = if matches!(req.payout_link, Some(true)) {
        Some(
            crate::link::create_payout_link(
                store,
                config,
                &business_profile,
                customer_id,
                merchant.merchant_id,
                req,
                payout_id,
                fresh,
                now,
            )?,
        )
    } else {
        None
    };
    let billing_address = create_or_find_address_for_payment_by_request(
        store,
        req.billing.as_ref(),
        None,
        Some(customer_id),
        fresh,
    )?;
    let address_id = match &billing_address {
        Some(a) => a.address_id,
        None => {
            return Err(
                PayoutError::MissingRequiredField { field_name: "billing.address".to_owned() },
            );
        },
    };
    let currency = match req.currency {
        Some(c) => c,
        None => {
            return Err(PayoutError::MissingRequiredField { field_name: "currency".to_owned() });
        },
    };
    let status = if req.payout_method_data.is_some() || req.payout_token.is_some()
        || stored_payout_method_data.is_some() {
        if matches!(req.confirm, Some(true)) {
            PayoutStatus::RequiresCreation
        } else {
            PayoutStatus::RequiresConfirmation
        }
    } else {
        PayoutStatus::RequiresPayoutMethodData
    };
    let payouts = PayoutsRecord {
        payout_id,
        merchant_id: merchant.merchant_id,
        customer_id,
        address_id,
        payout_type: req.payout_type,
        amount: match req.amount {
            Some(a) => a,
            None => 0,
        },
        destination_currency: currency,
        source_currency: currency,
        description: clone_opt_string(&req.description),
        recurring: matches!(req.recurring, Some(true)),
        auto_fulfill: matches!(req.auto_fulfill, Some(true)),
        return_url: clone_opt_string(&req.return_url),
        entity_type: match req.entity_type {
            Some(e) => e,
            None => EntityType::Individual,
        },
        payout_method_id: if stored_payout_method_data.is_some() {
            req.payout_token
        } else {
            None
        },
        profile_id,
        attempt_count: 1,
        confirm: req.confirm,
        payout_link_id: match &payout_link {
            Some(l) => Some(l.link_id),
            None => None,
        },
        client_secret: Some(fresh.client_secret),
        priority: req.priority,
        status,
        created_at: now,
    };
    match store.insert_payout(&payouts) {
        Ok(()) => {},
        Err(_) => {
            return Err(PayoutError::DuplicatePayout { payout_id });
        },
    }
    let payout_attempt = PayoutAttemptRecord {
        payout_id,
        merchant_id: merchant.merchant_id,
        attempt_number: 1,
        customer_id,
        address_id,
        profile_id,
        status,
        connector: None,
        merchant_connector_id: None,
        connector_payout_id: None,
        error_code: None,
        error_message: None,
        is_eligible: None,
        payout_token: req.payout_token,
        business_country: clone_opt_string(&req.business_country),
        business_label: clone_opt_string(&req.business_label),
        routing_info: None,
    };
    match store.insert_payout_attempt(&payout_attempt) {
        Ok(()) => {},
        Err(_) => {
            return Err(PayoutError::DuplicatePayout { payout_id });
        },
    }
    proof {
        assert(store.payouts@[store.payouts@.len() - 1] == payouts);
        assert(store.payouts@.contains(payouts));
        assert(store.attempts@[store.attempts@.len() - 1] == payout_attempt);
        assert(store.attempts@.contains(payout_attempt));
    }
    Ok(
        PayoutData {
            billing_address,
            business_profile,
            customer_details: customer,
            payouts,
            payout_attempt,
            payout_method_data: match req.payout_method_data {
                Some(md) => Some(md),
                None => stored_payout_method_data,
            },
            profile_id,
            should_terminate: false,
            payout_link,
        },
    )
}

/// Loads the pass's aggregate for an existing payout: the payout, its current
/// attempt, the billing address, customer, business profile, the method data
/// a token resolves to, and the payout link when one is attached.
pub fn make_payout_data(
    store: &PayoutStore,
    merchant: &MerchantAccount,
    req: &PayoutRequest,
) -> (r: Result<PayoutData, PayoutError>)
    requires
        store.wf(),
    ensures
        !store.has_payout(merchant.merchant_id, spec_request_payout_id(*req)) ==> (r matches Err(e)
            && e is PayoutNotFound),
        r matches Ok(d) ==> ({
            &&& aggregate_consistent(*store, d)
            &&& payout_loadable(*store, merchant.merchant_id, spec_request_payout_id(*req))
            &&& d.payouts == store.spec_payout(merchant.merchant_id, spec_request_payout_id(*req))
            &&& d.payout_attempt == store.spec_attempt(
                merchant.merchant_id,
                spec_request_payout_id(*req),
                d.payouts.attempt_count,
            )
            &&& d.payout_attempt.status == stored_status(
                *store,
                merchant.merchant_id,
                spec_request_payout_id(*req),
            )
            &&& d.profile_id == d.payout_attempt.profile_id
            &&& (d.payout_link is Some <==> d.payouts.payout_link_id is Some)
            &&& d.should_terminate == false
        }),
        loadable_full(*store, merchant.merchant_id, spec_request_payout_id(*req)) ==> r is Ok,
{
    let payout_id = match req {
        PayoutRequest::PayoutCreateRequest(r) => match r.payout_id {
            Some(p) => p,
            None => 0,
        },
        PayoutRequest::PayoutActionRequest(r) => r.payout_id,
        PayoutRequest::PayoutRetrieveRequest(r) => r.payout_id,
    };
    let payouts = match store.find_payout(merchant.merchant_id, payout_id) {
        Some(p) => p,
        None => {
            return Err(PayoutError::PayoutNotFound);
        },
    };
    let payout_attempt = match store.find_payout_attempt(
        merchant.merchant_id,
        payout_id,
        payouts.attempt_count,
    ) {
        Some(a) => a,
        None => {
            return Err(PayoutError::PayoutNotFound);
        },
    };
    proof {
        store.lemma_spec_payout(payouts);
        store.lemma_spec_attempt(payout_attempt);
    }
    let billing_address = store.find_address(payouts.address_id);
    let customer_details = store.find_customer(merchant.merchant_id, payouts.customer_id);
    let profile_id = payout_attempt.profile_id;
    let business_profile = validate_and_get_business_profile(store, profile_id, merchant.merchant_id)?;
    let payout_method_data = match req {
        PayoutRequest::PayoutCreateRequest(r) => r.payout_method_data,
        PayoutRequest::PayoutActionRequest(_) => match payout_attempt.payout_token {
            Some(tok) => match store.find_vault_entry(merchant.merchant_id, tok) {
                Some(entry) => Some(entry.method_data),
                None => None,
            },
            None => None,
        },
        PayoutRequest::PayoutRetrieveRequest(_) => None,
    };
    let payout_link = match payouts.payout_link_id {
        Some(lid) => match store.find_payout_link(lid) {
            Some(l) => Some(l),
            None => {
                return Err(PayoutError::InternalServerError);
            },
        },
        None => None,
    };
    Ok(
        PayoutData {
            billing_address,
            business_profile,
            customer_details,
            payouts,
            payout_attempt,
            payout_method_data,
            profile_id,
            should_terminate: false,
            payout_link,
        },
    )
}

/// The payout id an inbound request names.
pub open spec fn spec_request_payout_id(req: PayoutRequest) -> u64 {
    match req {
        PayoutRequest::PayoutCreateRequest(r) => spec_loaded_payout_id(*r),
        PayoutRequest::PayoutActionRequest(r) => r.payout_id,
        PayoutRequest::PayoutRetrieveRequest(r) => r.payout_id,
    }
}

/// The status an update/confirm request moves the payout to, before the pass.
pub open spec fn spec_updated_status(req: PayoutCreateRequest, data: PayoutData) -> PayoutStatus {
    if req.payout_method_data is Some || data.payout_method_data is Some || req.payout_token is Some
        || data.payout_attempt.payout_token is Some {
        if req.confirm == Some(true) {
            PayoutStatus::RequiresCreation
        } else {
            PayoutStatus::RequiresConfirmation
        }
    } else {
        PayoutStatus::RequiresPayoutMethodData
    }
}

/// Applies an update/confirm request to the payout and its attempt: the
/// business fields the request names, and the status the request's method
/// data and confirmation imply. Both records are persisted, attempt first.
pub fn update_payouts_and_payout_attempt(
    store: &mut PayoutStore,
    data: &mut PayoutData,
    req: &PayoutCreateRequest,
) -> (r: Result<(), PayoutError>)
    requires
        old(store).wf(),
        aggregate_consistent(*old(store), *old(data)),
    ensures
        final(store).wf(),
        aggregate_consistent(*final(store), *final(data)),
        collateral_unchanged(*old(store), *final(store)),
        final(store).customers == old(store).customers,
        final(store).tasks == old(store).tasks,
        final(store).vault == old(store).vault,
        r is Ok,
        statuses_agree(*final(data)),
        final(data).payouts.status == spec_updated_status(*req, *old(data)),
        final(data).payout_attempt.status == spec_updated_status(*req, *old(data)),
        final(data).payouts.amount == (match req.amount {
            Some(a) => a,
            None => old(data).payouts.amount,
        }),
        final(data).payouts.confirm == req.confirm,
        final(data).payout_attempt.payout_token == (if req.payout_token is Some {
            req.payout_token
        } else {
            old(data).payout_attempt.payout_token
        }),
        final(data).should_terminate == old(data).should_terminate,
        final(data).payout_method_data == old(data).payout_method_data,
        final(data).payout_link == old(data).payout_link,
{
    let has_method_data = req.payout_method_data.is_some() || data.payout_method_data.is_some()
        || req.payout_token.is_some() || data.payout_attempt.payout_token.is_some();
    let status = if has_method_data {
        if matches!(req.confirm, Some(true)) {
            PayoutStatus::RequiresCreation
        } else {
            PayoutStatus::RequiresConfirmation
        }
    } else {
        PayoutStatus::RequiresPayoutMethodData
    };
    let new_attempt = PayoutAttemptRecord {
        status,
        payout_token: match req.payout_token {
            Some(t) => Some(t),
            None => data.payout_attempt.payout_token,
        },
        ..data.payout_attempt.duplicate()
    };
    proof {
        let a = data.payout_attempt;
        assert(store.attempts@.contains(a));
        let i = choose|i: int| 0 <= i < store.attempts@.len() && store.attempts@[i] == a;
        assert(crate::store::attempt_key_matches(
            store.attempts@[i],
            new_attempt.merchant_id,
            new_attempt.payout_id,
            new_attempt.attempt_number,
        ));
        assert(store.has_attempt(
            new_attempt.merchant_id,
            new_attempt.payout_id,
            new_attempt.attempt_number,
        ));
    }
    store.replace_payout_attempt(&new_attempt);
    data.payout_attempt = new_attempt;
    let new_payouts = PayoutsRecord {
        status,
        amount: match req.amount {
            Some(a) => a,
            None => data.payouts.amount,
        },
        recurring: match req.recurring {
            Some(b) => b,
            None => data.payouts.recurring,
        },
        auto_fulfill: match req.auto_fulfill {
            Some(b) => b,
            None => data.payouts.auto_fulfill,
        },
        confirm: req.confirm,
        ..data.payouts.duplicate()
    };
    proof {
        let p = data.payouts;
        assert(store.payouts@.contains(p));
        let i = choose|i: int| 0 <= i < store.payouts@.len() && store.payouts@[i] == p;
        assert(crate::store::payout_key_matches(
            store.payouts@[i],
            new_payouts.merchant_id,
            new_payouts.payout_id,
        ));
        assert(store.has_payout(new_payouts.merchant_id, new_payouts.payout_id));
    }
    store.replace_payout(&new_payouts);
    data.payouts = new_payouts;
    Ok(())
}

/// Projects the pass's aggregate into the external response shape.
pub fn response_handler(merchant: &MerchantAccount, data: &PayoutData) -> (r: PayoutCreateResponse)
    ensures
        r.payout_id == data.payouts.payout_id,
        r.merchant_id == merchant.merchant_id,
        r.amount == data.payouts.amount,
        r.currency == data.payouts.destination_currency,
        r.connector == data.payout_attempt.connector,
        r.payout_type == data.payouts.payout_type,
        r.billing == data.billing_address,
        r.customer_id == data.payouts.customer_id,
        r.auto_fulfill == data.payouts.auto_fulfill,
        r.client_secret == data.payouts.client_secret,
        r.status == data.payout_attempt.status,
        r.error_code == data.payout_attempt.error_code,
        r.error_message == data.payout_attempt.error_message,
        r.profile_id == data.payout_attempt.profile_id,
        r.created == Some(data.payouts.created_at),
        r.connector_transaction_id == data.payout_attempt.connector_payout_id,
        r.priority == data.payouts.priority,
        r.recurring == data.payouts.recurring,
        r.entity_type == data.payouts.entity_type,
        r.description == data.payouts.description,
        r.return_url == data.payouts.return_url,
        r.business_country == data.payout_attempt.business_country,
        r.business_label == data.payout_attempt.business_label,
        (r.payout_link is Some <==> data.payout_link is Some),
        (match (data.payout_link, r.payout_link) {
            (Some(l), Some(pl)) => pl.payout_link_id == l.link_id && pl.link == l.url,
            (None, None) => true,
            _ => false,
        }),
        (match data.customer_details {
            Some(c) => r.email == c.email && r.name == c.name && r.phone == c.phone
                && r.phone_country_code == c.phone_country_code,
            None => r.email is None && r.name is None && r.phone is None && r.phone_country_code
                is None,
        }),
{
    let (email, name, phone, phone_country_code) = match &data.customer_details {
        Some(c) => (
            clone_opt_string(&c.email),
            clone_opt_string(&c.name),
            clone_opt_string(&c.phone),
            clone_opt_string(&c.phone_country_code),
        ),
        None => (None, None, None, None),
    };
    let billing = match &data.billing_address {
        Some(a) => Some(a.duplicate()),
        None => None,
    };
    let payout_link = match &data.payout_link {
        Some(l) => Some(PayoutLinkResponse { payout_link_id: l.link_id, link: l.url.clone() }),
        None => None,
    };
    PayoutCreateResponse {
        payout_id: data.payouts.payout_id,
        merchant_id: merchant.merchant_id,
        amount: data.payouts.amount,
        currency: data.payouts.destination_currency,
        connector: data.payout_attempt.connector,
        payout_type: data.payouts.payout_type,
        billing,
        customer_id: data.payouts.customer_id,
        auto_fulfill: data.payouts.auto_fulfill,
        email,
        name,
        phone,
        phone_country_code,
        client_secret: data.payouts.client_secret,
        return_url: clone_opt_string(&data.payouts.return_url),
        business_country: clone_opt_string(&data.payout_attempt.business_country),
        business_label: clone_opt_string(&data.payout_attempt.business_label),
        description: clone_opt_string(&data.payouts.description),
        entity_type: data.payouts.entity_type,
        recurring: data.payouts.recurring,
        status: data.payout_attempt.status,
        error_message: clone_opt_string(&data.payout_attempt.error_message),
        error_code: clone_opt_string(&data.payout_attempt.error_code),
        profile_id: data.payout_attempt.profile_id,
        created: Some(data.payouts.created_at),
        connector_transaction_id: clone_opt_string(&data.payout_attempt.connector_payout_id),
        priority: data.payouts.priority,
        payout_link,
    }
}

/// Creates a payout: validates the request, writes the records, tokenizes
/// method data, and — only when the request confirms — runs an orchestration
/// pass. An unconfirmed request performs no connector call and leaves the
/// payout awaiting confirmation (or method data).
pub fn payouts_create_core(
    store: &mut PayoutStore,
    gw: &mut ConnectorGateway,
    registry: &ConnectorRegistry,
    config: &PayoutsConfig,
    gsm: &GsmConfig,
    merchant: &MerchantAccount,
    req: &PayoutCreateRequest,
    routing: &ConnectorChoice,
    default_fallback: &Vec<RoutableConnectorChoice>,
    fresh: &FreshIds,
    now: u64,
) -> (r: Result<PayoutCreateResponse, PayoutError>)
    requires
        old(store).wf(),
    ensures
        final(store).wf(),
        req.confirm != Some(true) ==> *final(gw) == *old(gw),
        old(store).has_payout(merchant.merchant_id, spec_create_payout_id(*req, *fresh)) ==> (r
            matches Err(e) && e is DuplicatePayout) && *final(store) == *old(store) && *final(gw)
            == *old(gw),
        r matches Ok(resp) ==> resp.payout_id == spec_create_payout_id(*req, *fresh)
            && resp.merchant_id == merchant.merchant_id,
        r matches Ok(resp) ==> req.confirm != Some(true) ==> (resp.status
            == PayoutStatus::RequiresConfirmation || resp.status
            == PayoutStatus::RequiresPayoutMethodData),
        r matches Ok(resp) ==> (req.confirm != Some(true) && (req.payout_method_data is Some
            || req.payout_token is Some)) ==> resp.status == PayoutStatus::RequiresConfirmation,
        // The initial status follows from the request alone.
        r matches Ok(resp) ==> req.confirm != Some(true) ==> resp.status == spec_initial_status(
            *req,
            None,
        ),
        // A valid, unconfirmed creation request is owed success.
        ({
            &&& !old(store).has_payout(merchant.merchant_id, spec_create_payout_id(*req, *fresh))
            &&& !old(store).has_attempt(
                merchant.merchant_id,
                spec_create_payout_id(*req, *fresh),
                1,
            )
            &&& (req.profile_id is Some || merchant.default_profile_id is Some)
            &&& profile_ok(
                *old(store),
                (match req.profile_id {
                    Some(p) => p,
                    None => match merchant.default_profile_id {
                        Some(p) => p,
                        None => 0,
                    },
                }),
                merchant.merchant_id,
            )
            &&& req.customer_id is Some
            &&& req.billing is Some
            &&& !old(store).has_address(fresh.address_id)
            &&& req.currency is Some
            &&& req.payout_link != Some(true)
            &&& req.confirm != Some(true)
        }) ==> r is Ok,
{
    let (payout_id, profile_id, stored_payout_method_data) = validate_create_request(
        store,
        merchant,
        req,
        fresh,
    )?;
    let mut data = payout_create_db_entries(
        store,
        merchant,
        config,
        req,
        payout_id,
        profile_id,
        stored_payout_method_data,
        fresh,
        now,
    )?;
    // Tokenize the method data when the attempt carries a token.
    let resolved = make_payout_method_data(
        store,
        data.payout_method_data,
        data.payout_attempt.payout_token,
        merchant.merchant_id,
        data.payouts.customer_id,
    )?;
    data.payout_method_data = resolved;
    if matches!(data.payouts.confirm, Some(true)) {
        let eligible = match &req.connector {
            Some(v) => Some(v),
            None => None,
        };
        payouts_core(
            store,
            gw,
            registry,
            config,
            gsm,
            routing,
            default_fallback,
            eligible,
            &mut data,
            now,
        )?;
    }
    Ok(response_handler(merchant, &data))
}

/// Confirms a payout awaiting confirmation: rejected without any state change
/// when the payout is already confirmed, terminal, or otherwise past
/// confirmation; otherwise the request's fields are applied, the payout link
/// moves to Submitted, and an orchestration pass runs.
pub fn payouts_confirm_core(
    store: &mut PayoutStore,
    gw: &mut ConnectorGateway,
    registry: &ConnectorRegistry,
    config: &PayoutsConfig,
    gsm: &GsmConfig,
    merchant: &MerchantAccount,
    req: &PayoutCreateRequest,
    routing: &ConnectorChoice,
    default_fallback: &Vec<RoutableConnectorChoice>,
    now: u64,
) -> (r: Result<PayoutCreateResponse, PayoutError>)
    requires
        old(store).wf(),
    ensures
        final(store).wf(),
        !old(store).has_payout(merchant.merchant_id, spec_loaded_payout_id(*req)) ==> (r matches
            Err(e) && e is PayoutNotFound) && *final(store) == *old(store) && *final(gw) == *old(gw),
        ({
            &&& payout_loadable(*old(store), merchant.merchant_id, spec_loaded_payout_id(*req))
            &&& !crate::status::spec_is_creation_eligible(
                stored_status(*old(store), merchant.merchant_id, spec_loaded_payout_id(*req)),
            )
        }) ==> r is Err && *final(store) == *old(store) && *final(gw) == *old(gw),
        ({
            &&& loadable_full(*old(store), merchant.merchant_id, spec_loaded_payout_id(*req))
            &&& !crate::status::spec_is_creation_eligible(
                stored_status(*old(store), merchant.merchant_id, spec_loaded_payout_id(*req)),
            )
        }) ==> (r matches Err(e) && e is InvalidRequestData),
{
    let data_loaded = make_payout_data(store, merchant, &PayoutRequest::PayoutCreateRequest(req))?;
    let mut data = data_loaded;
    let status = data.payout_attempt.status;
    if !matches!(
        status,
        PayoutStatus::RequiresCreation | PayoutStatus::RequiresConfirmation
            | PayoutStatus::RequiresPayoutMethodData,
    ) {
        return Err(
            PayoutError::InvalidRequestData {
                message: "payout cannot be confirmed in its current status".to_owned(),
            },
        );
    }
    update_payouts_and_payout_attempt(store, &mut data, req)?;
    // The customer-facing link, when there is one, has been submitted.
    if data.payout_link.is_some() {
        let updated_link = match &data.payout_link {
            Some(l) => {
                let mut u = l.duplicate();
                u.status = crate::records::PayoutLinkStatus::Submitted;
                Some(u)
            },
            None => None,
        };
        if let Some(u) = updated_link {
            if store.find_payout_link(u.link_id).is_some() {
                let stored = u.duplicate();
                store.replace_payout_link(stored);
            }
            data.payout_link = Some(u);
        }
    }
    let eligible = match &req.connector {
        Some(v) => Some(v),
        None => None,
    };
    payouts_core(
        store,
        gw,
        registry,
        config,
        gsm,
        routing,
        default_fallback,
        eligible,
        &mut data,
        now,
    )?;
    Ok(response_handler(merchant, &data))
}

/// Updates a payout's business intent: rejected without any state change once
/// the payout is terminal or already handed to the connector; otherwise the
/// request's fields are applied, the routing is reset unless the existing
/// connector is kept, and a pass runs when the request confirms.
pub fn payouts_update_core(
    store: &mut PayoutStore,
    gw: &mut ConnectorGateway,
    registry: &ConnectorRegistry,
    config: &PayoutsConfig,
    gsm: &GsmConfig,
    merchant: &MerchantAccount,
    req: &PayoutCreateRequest,
    routing: &ConnectorChoice,
    default_fallback: &Vec<RoutableConnectorChoice>,
    now: u64,
) -> (r: Result<PayoutCreateResponse, PayoutError>)
    requires
        old(store).wf(),
    ensures
        final(store).wf(),
        !old(store).has_payout(merchant.merchant_id, spec_loaded_payout_id(*req)) ==> (r matches
            Err(e) && e is PayoutNotFound) && *final(store) == *old(store) && *final(gw) == *old(gw),
        ({
            &&& payout_loadable(*old(store), merchant.merchant_id, spec_loaded_payout_id(*req))
            &&& (crate::status::spec_is_terminal_state(
                stored_status(*old(store), merchant.merchant_id, spec_loaded_payout_id(*req)),
            ) || crate::status::spec_is_initiated(
                stored_status(*old(store), merchant.merchant_id, spec_loaded_payout_id(*req)),
            ))
        }) ==> r is Err && *final(store) == *old(store) && *final(gw) == *old(gw),
        ({
            &&& loadable_full(*old(store), merchant.merchant_id, spec_loaded_payout_id(*req))
            &&& (crate::status::spec_is_terminal_state(
                stored_status(*old(store), merchant.merchant_id, spec_loaded_payout_id(*req)),
            ) || crate::status::spec_is_initiated(
                stored_status(*old(store), merchant.merchant_id, spec_loaded_payout_id(*req)),
            ))
        }) ==> (r matches Err(e) && e is InvalidRequestData),
        // Without a confirmation the applied update is reported back.
        r matches Ok(resp) ==> req.confirm != Some(true) ==> ({
            &&& (req.amount matches Some(a) ==> resp.amount == a)
            &&& (req.connector is Some ==> resp.connector is None)
        }),
{
    let mut data = make_payout_data(store, merchant, &PayoutRequest::PayoutCreateRequest(req))?;
    let status = data.payout_attempt.status;
    if crate::status::is_payout_terminal_state(status) || crate::status::is_payout_initiated(
        status,
    ) {
        return Err(
            PayoutError::InvalidRequestData {
                message: "payout cannot be updated in its current status".to_owned(),
            },
        );
    }
    update_payouts_and_payout_attempt(store, &mut data, req)?;
    // Keep the routed connector only when the request names none and an
    // earlier pass chose one; otherwise routing starts over.
    let keep_connector = req.connector.is_none() && data.payout_attempt.connector.is_some();
    if !keep_connector {
        let updated = PayoutAttemptRecord {
            connector: None,
            routing_info: None,
            ..data.payout_attempt.duplicate()
        };
        proof {
            let a = data.payout_attempt;
            assert(store.attempts@.contains(a));
            let i = choose|i: int| 0 <= i < store.attempts@.len() && store.attempts@[i] == a;
            assert(crate::store::attempt_key_matches(
                store.attempts@[i],
                updated.merchant_id,
                updated.payout_id,
                updated.attempt_number,
            ));
            assert(store.has_attempt(updated.merchant_id, updated.payout_id, updated.attempt_number));
        }
        store.replace_payout_attempt(&updated);
        data.payout_attempt = updated;
    }
    if matches!(data.payouts.confirm, Some(true)) {
        let eligible = match &req.connector {
            Some(v) => Some(v),
            None => None,
        };
        payouts_core(
            store,
            gw,
            registry,
            config,
            gsm,
            routing,
            default_fallback,
            eligible,
            &mut data,
            now,
        )?;
    }
    Ok(response_handler(merchant, &data))
}

/// Retrieves a payout's projection; with force_sync set and a syncable
/// status, the connector is asked for the current state first.
pub fn payouts_retrieve_core(
    store: &mut PayoutStore,
    gw: &mut ConnectorGateway,
    registry: &ConnectorRegistry,
    merchant: &MerchantAccount,
    req: &crate::api::PayoutRetrieveRequest,
    default_fallback: &Vec<RoutableConnectorChoice>,
) -> (r: Result<PayoutCreateResponse, PayoutError>)
    requires
        old(store).wf(),
    ensures
        final(store).wf(),
        !old(store).has_payout(merchant.merchant_id, req.payout_id) ==> (r matches Err(e)
            && e is PayoutNotFound) && *final(store) == *old(store) && *final(gw) == *old(gw),
        req.force_sync != Some(true) ==> *final(store) == *old(store) && *final(gw) == *old(gw),
        ({
            &&& payout_loadable(*old(store), merchant.merchant_id, req.payout_id)
            &&& !crate::status::spec_should_call_retrieve(
                stored_status(*old(store), merchant.merchant_id, req.payout_id),
            )
        }) ==> *final(store) == *old(store) && *final(gw) == *old(gw),
        r matches Ok(resp) ==> req.force_sync != Some(true) ==> (resp.payout_id == req.payout_id
            && payout_loadable(*old(store), merchant.merchant_id, req.payout_id) && resp.status
            == stored_status(*old(store), merchant.merchant_id, req.payout_id)),
        loadable_full(*old(store), merchant.merchant_id, req.payout_id) && req.force_sync != Some(
            true,
        ) ==> r is Ok,
        loadable_full(*old(store), merchant.merchant_id, req.payout_id)
            && !crate::status::spec_should_call_retrieve(
            stored_status(*old(store), merchant.merchant_id, req.payout_id),
        ) ==> r is Ok,
{
    let mut data = make_payout_data(store, merchant, &PayoutRequest::PayoutRetrieveRequest(*req))?;
    if matches!(req.force_sync, Some(true)) && crate::status::should_call_retrieve(
        data.payout_attempt.status,
    ) {
        let connector_call_type = match get_connector_choice(
            registry,
            data.payout_attempt.connector,
            &ConnectorChoice::Decide,
            default_fallback,
            None,
        ) {
            Ok(ct) => ct,
            Err(e) => {
                return Err(e);
            },
        };
        crate::flows::complete_payout_retrieve(store, gw, connector_call_type, &mut data)?;
    }
    Ok(response_handler(merchant, &data))
}

/// Cancels a payout. A terminal payout is rejected without any state change;
/// one the connector has never been called for is cancelled locally with no
/// connector call; otherwise the connector's cancellation operation runs.
pub fn payouts_cancel_core(
    store: &mut PayoutStore,
    gw: &mut ConnectorGateway,
    merchant: &MerchantAccount,
    req: &crate::api::PayoutActionRequest,
) -> (r: Result<PayoutCreateResponse, PayoutError>)
    requires
        old(store).wf(),
    ensures
        final(store).wf(),
        !old(store).has_payout(merchant.merchant_id, req.payout_id) ==> (r matches Err(e)
            && e is PayoutNotFound) && *final(store) == *old(store) && *final(gw) == *old(gw),
        ({
            &&& payout_loadable(*old(store), merchant.merchant_id, req.payout_id)
            &&& crate::status::spec_is_terminal_state(
                stored_status(*old(store), merchant.merchant_id, req.payout_id),
            )
        }) ==> r is Err && *final(store) == *old(store) && *final(gw) == *old(gw),
        ({
            &&& loadable_full(*old(store), merchant.merchant_id, req.payout_id)
            &&& crate::status::spec_is_terminal_state(
                stored_status(*old(store), merchant.merchant_id, req.payout_id),
            )
        }) ==> (r matches Err(e) && e is InvalidRequestData),
        ({
            &&& loadable_full(*old(store), merchant.merchant_id, req.payout_id)
            &&& crate::status::spec_is_locally_cancellable(
                stored_status(*old(store), merchant.merchant_id, req.payout_id),
            )
        }) ==> r is Ok,
        ({
            &&& payout_loadable(*old(store), merchant.merchant_id, req.payout_id)
            &&& crate::status::spec_is_locally_cancellable(
                stored_status(*old(store), merchant.merchant_id, req.payout_id),
            )
        }) ==> *final(gw) == *old(gw) && (r matches Ok(resp) ==> (resp.status
            == PayoutStatus::Cancelled && (resp.error_message matches Some(m) && m@
            == "Cancelled by user"@) && resp.error_code is None)) && (r is Ok ==> stored_status(
            *final(store),
            merchant.merchant_id,
            req.payout_id,
        ) == PayoutStatus::Cancelled && final(store).spec_attempt(
            merchant.merchant_id,
            req.payout_id,
            final(store).spec_payout(merchant.merchant_id, req.payout_id).attempt_count,
        ).error_code is None && payout_loadable(
            *final(store),
            merchant.merchant_id,
            req.payout_id,
        )),
        // The connector path dispatches exactly one cancel and persists its
        // outcome to both records.
        ({
            &&& loadable_full(*old(store), merchant.merchant_id, req.payout_id)
            &&& !crate::status::spec_is_terminal_state(
                stored_status(*old(store), merchant.merchant_id, req.payout_id),
            )
            &&& !crate::status::spec_is_locally_cancellable(
                stored_status(*old(store), merchant.merchant_id, req.payout_id),
            )
            &&& old(store).spec_attempt(
                merchant.merchant_id,
                req.payout_id,
                old(store).spec_payout(merchant.merchant_id, req.payout_id).attempt_count,
            ).connector is Some
        }) ==> ({
            &&& final(gw).log@ == old(gw).log@.push(crate::connector::PayoutOperation::Cancel)
            &&& r is Ok
            &&& payout_loadable(*final(store), merchant.merchant_id, req.payout_id)
            &&& stored_status(*final(store), merchant.merchant_id, req.payout_id) == (
            if crate::flows::head_outcome_is_success(*old(gw)) {
                crate::flows::response_status(
                    crate::flows::head_success(*old(gw)),
                    stored_status(*old(store), merchant.merchant_id, req.payout_id),
                )
            } else {
                PayoutStatus::Failed
            })
        }),
        ({
            &&& payout_loadable(*old(store), merchant.merchant_id, req.payout_id)
            &&& !crate::status::spec_is_terminal_state(
                stored_status(*old(store), merchant.merchant_id, req.payout_id),
            )
            &&& !crate::status::spec_is_locally_cancellable(
                stored_status(*old(store), merchant.merchant_id, req.payout_id),
            )
        }) ==> (final(gw).log@ == old(gw).log@.push(crate::connector::PayoutOperation::Cancel)
            || r is Err),
{
    let mut data = make_payout_data(store, merchant, &PayoutRequest::PayoutActionRequest(*req))?;
    let status = data.payout_attempt.status;
    if crate::status::is_payout_terminal_state(status) {
        return Err(
            PayoutError::InvalidRequestData {
                message: "payout cannot be cancelled in its current status".to_owned(),
            },
        );
    } else if crate::status::is_eligible_for_local_payout_cancellation(status) {
        let kept_connector_payout_id = clone_opt_string(&data.payout_attempt.connector_payout_id);
        crate::flows::persist_status_update(
            store,
            &mut data,
            PayoutStatus::Cancelled,
            kept_connector_payout_id,
            None,
            Some("Cancelled by user".to_owned()),
            None,
        );
        proof {
            store.lemma_spec_payout(data.payouts);
            store.lemma_spec_attempt(data.payout_attempt);
        }
    } else {
        match data.payout_attempt.connector {
            Some(_) => {},
            None => {
                return Err(
                    PayoutError::MissingRequiredField { field_name: "connector".to_owned() },
                );
            },
        }
        crate::flows::cancel_payout(store, gw, &mut data)?;
        proof {
            store.lemma_spec_payout(data.payouts);
            store.lemma_spec_attempt(data.payout_attempt);
        }
    }
    Ok(response_handler(merchant, &data))
}

/// Fulfills a payout that awaits fulfillment: rejected without any state
/// change in every other status; the connector and the payout method data
/// must be at hand.
pub fn payouts_fulfill_core(
    store: &mut PayoutStore,
    gw: &mut ConnectorGateway,
    merchant: &MerchantAccount,
    req: &crate::api::PayoutActionRequest,
) -> (r: Result<PayoutCreateResponse, PayoutError>)
    requires
        old(store).wf(),
    ensures
        final(store).wf(),
        !old(store).has_payout(merchant.merchant_id, req.payout_id) ==> (r matches Err(e)
            && e is PayoutNotFound) && *final(store) == *old(store) && *final(gw) == *old(gw),
        ({
            &&& payout_loadable(*old(store), merchant.merchant_id, req.payout_id)
            &&& stored_status(*old(store), merchant.merchant_id, req.payout_id)
                != PayoutStatus::RequiresFulfillment
        }) ==> r is Err && *final(store) == *old(store) && *final(gw) == *old(gw),
        ({
            &&& loadable_full(*old(store), merchant.merchant_id, req.payout_id)
            &&& stored_status(*old(store), merchant.merchant_id, req.payout_id)
                != PayoutStatus::RequiresFulfillment
        }) ==> (r matches Err(e) && e is InvalidRequestData),
        ({
            &&& payout_loadable(*old(store), merchant.merchant_id, req.payout_id)
            &&& stored_status(*old(store), merchant.merchant_id, req.payout_id)
                == PayoutStatus::RequiresFulfillment
        }) ==> (final(gw).log@ == old(gw).log@.push(crate::connector::PayoutOperation::Fulfill)
            || r is Err),
        // With the connector and tokenized method data at hand, the fulfill
        // operation is dispatched and its outcome persisted.
        ({
            &&& loadable_full(*old(store), merchant.merchant_id, req.payout_id)
            &&& stored_status(*old(store), merchant.merchant_id, req.payout_id)
                == PayoutStatus::RequiresFulfillment
            &&& old(store).spec_attempt(
                merchant.merchant_id,
                req.payout_id,
                old(store).spec_payout(merchant.merchant_id, req.payout_id).attempt_count,
            ).connector is Some
            &&& match old(store).spec_attempt(
                merchant.merchant_id,
                req.payout_id,
                old(store).spec_payout(merchant.merchant_id, req.payout_id).attempt_count,
            ).payout_token {
                Some(t) => old(store).has_vault_entry(merchant.merchant_id, t),
                None => false,
            }
        }) ==> ({
            &&& final(gw).log@ == old(gw).log@.push(crate::connector::PayoutOperation::Fulfill)
            &&& payout_loadable(*final(store), merchant.merchant_id, req.payout_id)
            &&& stored_status(*final(store), merchant.merchant_id, req.payout_id) == (
            if crate::flows::head_outcome_is_success(*old(gw)) {
                crate::flows::response_status(
                    crate::flows::head_success(*old(gw)),
                    PayoutStatus::RequiresFulfillment,
                )
            } else {
                PayoutStatus::Failed
            })
            &&& (crate::flows::head_outcome_is_success(*old(gw)) ==> (r is Ok
                <==> !crate::status::spec_is_err_state(
                stored_status(*final(store), merchant.merchant_id, req.payout_id),
            )))
            &&& (!crate::flows::head_outcome_is_success(*old(gw)) ==> r is Ok)
        }),
{
    let mut data = make_payout_data(store, merchant, &PayoutRequest::PayoutActionRequest(*req))?;
    let status = data.payout_attempt.status;
    if !matches!(status, PayoutStatus::RequiresFulfillment) {
        return Err(
            PayoutError::InvalidRequestData {
                message: "payout cannot be fulfilled in its current status".to_owned(),
            },
        );
    }
    match data.payout_attempt.connector {
        Some(_) => {},
        None => {
            return Err(PayoutError::MissingRequiredField { field_name: "connector".to_owned() });
        },
    }
    let resolved = make_payout_method_data(
        store,
        data.payout_method_data,
        data.payout_attempt.payout_token,
        merchant.merchant_id,
        data.payouts.customer_id,
    )?;
    match resolved {
        Some(md) => {
            data.payout_method_data = Some(md);
        },
        None => {
            return Err(
                PayoutError::MissingRequiredField { field_name: "payout_method_data".to_owned() },
            );
        },
    }
    let fulfill_result = crate::flows::fulfill_payout(store, gw, &mut data);
    proof {
        store.lemma_spec_payout(data.payouts);
        store.lemma_spec_attempt(data.payout_attempt);
    }
    fulfill_result?;
    Ok(response_handler(merchant, &data))
}

} // verus!
