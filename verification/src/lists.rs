//! List and filter queries over stored payouts: the merchant-facing list, the
//! filtered list, and the distinct filter values on offer.

use vstd::prelude::*;

use crate::api::PayoutCreateResponse;
use crate::error::PayoutError;
use crate::records::{AddressRecord, CustomerRecord, MerchantAccount, PayoutsRecord};
use crate::status::PayoutStatus;
use crate::store::PayoutStore;
use crate::types::{clone_opt_string, ConnectorName, Currency, PayoutType};

verus! {

/// Most payouts one list call may return.
pub const MAX_PAYOUTS_LIST_LIMIT: u32 = 100;

/// Payouts returned when a list request names no limit.
pub const DEFAULT_PAYOUTS_LIST_LIMIT: u32 = 10;

/// Constraints of the plain list call.
#[derive(Clone, Copy, Debug, PartialEq, Eq, Structural)]
pub struct PayoutListConstraints {
    pub customer_id: Option<u64>,
    pub limit: Option<u32>,
    pub created_after: Option<u64>,
    pub created_before: Option<u64>,
}

/// Constraints of the filtered list call.
#[derive(Clone, Copy, Debug, PartialEq, Eq, Structural)]
pub struct PayoutListFilterConstraints {
    pub customer_id: Option<u64>,
    pub limit: u32,
    pub currency: Option<Currency>,
    pub status: Option<PayoutStatus>,
    pub payout_method: Option<PayoutType>,
    pub created_after: Option<u64>,
    pub created_before: Option<u64>,
}

/// A page of payout projections.
pub struct PayoutListResponse {
    pub size: usize,
    pub data: Vec<PayoutCreateResponse>,
}

/// The distinct filter values the stored payouts offer.
pub struct PayoutListFilters {
    pub connector: Vec<ConnectorName>,
    pub currency: Vec<Currency>,
    pub status: Vec<PayoutStatus>,
    pub payout_method: Vec<PayoutType>,
}

/// A payout matches the filtered-list constraints.
pub open spec fn spec_filter_match(
    p: PayoutsRecord,
    merchant_id: u64,
    c: PayoutListFilterConstraints,
) -> bool {
    &&& p.merchant_id == merchant_id
    &&& (match c.customer_id {
        Some(cid) => p.customer_id == cid,
        None => true,
    })
    &&& (match c.currency {
        Some(cur) => p.destination_currency == cur,
        None => true,
    })
    &&& (match c.status {
        Some(s) => p.status == s,
        None => true,
    })
    &&& (match c.payout_method {
        Some(t) => p.payout_type == Some(t),
        None => true,
    })
    &&& (match c.created_after {
        Some(t) => p.created_at >= t,
        None => true,
    })
    &&& (match c.created_before {
        Some(t) => p.created_at <= t,
        None => true,
    })
}

fn filter_match(p: &PayoutsRecord, merchant_id: u64, c: &PayoutListFilterConstraints) -> (r: bool)
    ensures
        r == spec_filter_match(*p, merchant_id, *c),
{
    p.merchant_id == merchant_id && (match c.customer_id {
        Some(cid) => p.customer_id == cid,
        None => true,
    }) && (match c.currency {
        Some(cur) => p.destination_currency == cur,
        None => true,
    }) && (match c.status {
        Some(s) => p.status == s,
        None => true,
    }) && (match c.payout_method {
        Some(t) => match p.payout_type {
            Some(pt) => pt == t,
            None => false,
        },
        None => true,
    }) && (match c.created_after {
        Some(t) => p.created_at >= t,
        None => true,
    }) && (match c.created_before {
        Some(t) => p.created_at <= t,
        None => true,
    })
}

/// The stored payouts a list call considers: those matching the constraints
/// whose current attempt and customer are on file.
pub open spec fn spec_list_eligible(
    store: PayoutStore,
    merchant_id: u64,
    c: PayoutListFilterConstraints,
) -> Seq<PayoutsRecord> {
    store.payouts@.filter(
        |p: PayoutsRecord|
            spec_filter_match(p, merchant_id, c) && store.has_attempt(
                merchant_id,
                p.payout_id,
                p.attempt_count,
            ) && store.has_customer(merchant_id, p.customer_id),
    )
}

fn list_item_response(
    merchant_id: u64,
    p: &PayoutsRecord,
    a: &crate::records::PayoutAttemptRecord,
    customer: CustomerRecord,
    billing: Option<AddressRecord>,
) -> (r: PayoutCreateResponse)
    ensures
        r.payout_id == p.payout_id,
        r.merchant_id == merchant_id,
        r.amount == p.amount,
        r.currency == p.destination_currency,
        r.customer_id == p.customer_id,
        r.status == a.status,
        r.connector == a.connector,
{
    PayoutCreateResponse {
        payout_id: p.payout_id,
        merchant_id,
        amount: p.amount,
        currency: p.destination_currency,
        connector: a.connector,
        payout_type: p.payout_type,
        billing,
        customer_id: p.customer_id,
        auto_fulfill: p.auto_fulfill,
        email: clone_opt_string(&customer.email),
        name: clone_opt_string(&customer.name),
        phone: clone_opt_string(&customer.phone),
        phone_country_code: clone_opt_string(&customer.phone_country_code),
        client_secret: p.client_secret,
        return_url: clone_opt_string(&p.return_url),
        business_country: clone_opt_string(&a.business_country),
        business_label: clone_opt_string(&a.business_label),
        description: clone_opt_string(&p.description),
        entity_type: p.entity_type,
        recurring: p.recurring,
        status: a.status,
        error_message: clone_opt_string(&a.error_message),
        error_code: clone_opt_string(&a.error_code),
        profile_id: a.profile_id,
        created: Some(p.created_at),
        connector_transaction_id: clone_opt_string(&a.connector_payout_id),
        priority: p.priority,
        payout_link: None,
    }
}

/// One returned item is the projection of a stored, joinable payout that
/// matches the constraints.
pub open spec fn spec_item_from_store(
    store: PayoutStore,
    merchant_id: u64,
    c: PayoutListFilterConstraints,
    item: PayoutCreateResponse,
) -> bool {
    exists|k: int|
        #![trigger store.payouts@[k]]
        0 <= k < store.payouts@.len() && spec_filter_match(store.payouts@[k], merchant_id, c)
            && item.payout_id == store.payouts@[k].payout_id && item.customer_id
            == store.payouts@[k].customer_id && item.amount == store.payouts@[k].amount
            && item.currency == store.payouts@[k].destination_currency && item.status
            == store.spec_attempt(
            merchant_id,
            store.payouts@[k].payout_id,
            store.payouts@[k].attempt_count,
        ).status
}

/// Collects the projections of the matching, joinable payouts, in store
/// order, up to the limit.
fn collect_filtered_payouts(
    store: &PayoutStore,
    merchant_id: u64,
    c: &PayoutListFilterConstraints,
) -> (out: Vec<PayoutCreateResponse>)
    requires
        store.wf(),
    ensures
        out@.len() == (if spec_list_eligible(*store, merchant_id, *c).len() <= c.limit as int {
            spec_list_eligible(*store, merchant_id, *c).len() as int
        } else {
            c.limit as int
        }),
        forall|j: int|
            0 <= j < out@.len() ==> spec_item_from_store(*store, merchant_id, *c, #[trigger] out@[j]),
{
    let ghost pred = |p: PayoutsRecord|
        spec_filter_match(p, merchant_id, *c) && store.has_attempt(
            merchant_id,
            p.payout_id,
            p.attempt_count,
        ) && store.has_customer(merchant_id, p.customer_id);
    let mut out: Vec<PayoutCreateResponse> = Vec::new();
    let mut i: usize = 0;
    while i < store.payouts.len()
        invariant
            store.wf(),
            i <= store.payouts@.len(),
            pred == (|p: PayoutsRecord|
                spec_filter_match(p, merchant_id, *c) && store.has_attempt(
                    merchant_id,
                    p.payout_id,
                    p.attempt_count,
                ) && store.has_customer(merchant_id, p.customer_id)),
            out@.len() <= c.limit as int,
            out@.len() == (if store.payouts@.take(i as int).filter(pred).len() <= c.limit as int {
                store.payouts@.take(i as int).filter(pred).len() as int
            } else {
                c.limit as int
            }),
            forall|j: int|
                0 <= j < out@.len() ==> spec_item_from_store(
                    *store,
                    merchant_id,
                    *c,
                    #[trigger] out@[j],
                ),
        decreases store.payouts@.len() - i,
    {
        proof {
            store.payouts@.take(i as int).lemma_filter_push(store.payouts@[i as int], pred);
            assert(store.payouts@.take(i as int + 1) =~= store.payouts@.take(i as int).push(
                store.payouts@[i as int],
            ));
        }
        let p = &store.payouts[i];
        if filter_match(p, merchant_id, c) && out.len() < c.limit as usize {
            match store.find_payout_attempt(merchant_id, p.payout_id, p.attempt_count) {
                Some(a) => {
                    match store.find_customer(merchant_id, p.customer_id) {
                        Some(customer) => {
                            let billing = store.find_address(p.address_id);
                            let item = list_item_response(merchant_id, p, &a, customer, billing);
                            proof {
                                store.lemma_spec_attempt(a);
                                let ci = choose|ci: int|
                                    0 <= ci < store.customers@.len()
                                        && crate::records::customer_like(
                                        customer,
                                        store.customers@[ci],
                                    );
                                assert(crate::store::customer_key_matches(
                                    store.customers@[ci],
                                    merchant_id,
                                    p.customer_id,
                                ));
                                assert(store.has_customer(merchant_id, p.customer_id));
                                assert(spec_item_from_store(*store, merchant_id, *c, item));
                            }
                            out.push(item);
                        },
                        None => {},
                    }
                },
                None => {},
            }
        } else {
            if filter_match(p, merchant_id, c) {
                // Over the limit: the record still counts as eligible only if
                // it joins, but the page is full either way.
                proof {
                    assert(out@.len() == c.limit as int);
                }
            }
        }
        i = i + 1;
    }
    proof {
        assert(store.payouts@.take(store.payouts@.len() as int) =~= store.payouts@);
    }
    out
}

/// Lists a merchant's payouts under the plain constraints. The page holds the
/// matching, joinable payouts in store order, up to the limit (the default
/// when the request names none); a limit over the maximum is rejected.
pub fn payouts_list_core(
    store: &PayoutStore,
    merchant: &MerchantAccount,
    constraints: &PayoutListConstraints,
) -> (r: Result<PayoutListResponse, PayoutError>)
    requires
        store.wf(),
    ensures
        (match constraints.limit {
            Some(l) => l > MAX_PAYOUTS_LIST_LIMIT,
            None => false,
        }) <==> (r matches Err(e) && e is InvalidRequestData),
        (match constraints.limit {
            Some(l) => l <= MAX_PAYOUTS_LIST_LIMIT,
            None => true,
        }) ==> r is Ok,
        r matches Ok(resp) ==> ({
            let c = PayoutListFilterConstraints {
                customer_id: constraints.customer_id,
                limit: (match constraints.limit {
                    Some(l) => l,
                    None => DEFAULT_PAYOUTS_LIST_LIMIT,
                }),
                currency: None,
                status: None,
                payout_method: None,
                created_after: constraints.created_after,
                created_before: constraints.created_before,
            };
            &&& resp.size == resp.data@.len()
            &&& resp.data@.len() == (if spec_list_eligible(*store, merchant.merchant_id, c).len() as int
                <= c.limit as int {
                spec_list_eligible(*store, merchant.merchant_id, c).len() as int
            } else {
                c.limit as int
            })
            &&& forall|j: int|
                0 <= j < resp.data@.len() ==> spec_item_from_store(
                    *store,
                    merchant.merchant_id,
                    c,
                    #[trigger] resp.data@[j],
                )
        }),
{
    let limit = match constraints.limit {
        Some(l) => {
            if l > MAX_PAYOUTS_LIST_LIMIT {
                return Err(
                    PayoutError::InvalidRequestData {
                        message: "limit exceeds the maximum page size".to_owned(),
                    },
                );
            }
            l
        },
        None => DEFAULT_PAYOUTS_LIST_LIMIT,
    };
    let c = PayoutListFilterConstraints {
        customer_id: constraints.customer_id,
        limit,
        currency: None,
        status: None,
        payout_method: None,
        created_after: constraints.created_after,
        created_before: constraints.created_before,
    };
    let data = collect_filtered_payouts(store, merchant.merchant_id, &c);
    Ok(PayoutListResponse { size: data.len(), data })
}

/// Lists a merchant's payouts under the filtered constraints; a limit over
/// the maximum is rejected.
pub fn payouts_filtered_list_core(
    store: &PayoutStore,
    merchant: &MerchantAccount,
    filters: &PayoutListFilterConstraints,
) -> (r: Result<PayoutListResponse, PayoutError>)
    requires
        store.wf(),
    ensures
        filters.limit > MAX_PAYOUTS_LIST_LIMIT <==> (r matches Err(e) && e is InvalidRequestData),
        filters.limit <= MAX_PAYOUTS_LIST_LIMIT ==> r is Ok,
        r matches Ok(resp) ==> ({
            &&& resp.size == resp.data@.len()
            &&& resp.data@.len() == (if spec_list_eligible(
                *store,
                merchant.merchant_id,
                *filters,
            ).len() <= filters.limit as int {
                spec_list_eligible(*store, merchant.merchant_id, *filters).len() as int
            } else {
                filters.limit as int
            })
            &&& forall|j: int|
                0 <= j < resp.data@.len() ==> spec_item_from_store(
                    *store,
                    merchant.merchant_id,
                    *filters,
                    #[trigger] resp.data@[j],
                )
        }),
{
    if filters.limit > MAX_PAYOUTS_LIST_LIMIT {
        return Err(
            PayoutError::InvalidRequestData {
                message: "limit exceeds the maximum page size".to_owned(),
            },
        );
    }
    let data = collect_filtered_payouts(store, merchant.merchant_id, filters);
    Ok(PayoutListResponse { size: data.len(), data })
}

/// A payout falls in the filters' time range for this merchant.
pub open spec fn spec_in_time_range(
    p: PayoutsRecord,
    merchant_id: u64,
    start_time: u64,
    end_time: Option<u64>,
) -> bool {
    p.merchant_id == merchant_id && p.created_at >= start_time && (match end_time {
        Some(t) => p.created_at <= t,
        None => true,
    })
}

fn contains_name(v: &Vec<ConnectorName>, x: ConnectorName) -> (r: bool)
    ensures
        r == v@.contains(x),
{
    let mut i: usize = 0;
    while i < v.len()
        invariant
            i <= v.len(),
            forall|j: int| 0 <= j < i ==> v@[j] != x,
        decreases v.len() - i,
    {
        if v[i] == x {
            proof {
                assert(v@[i as int] == x);
            }
            return true;
        }
        i = i + 1;
    }
    false
}

fn contains_currency(v: &Vec<Currency>, x: Currency) -> (r: bool)
    ensures
        r == v@.contains(x),
{
    let mut i: usize = 0;
    while i < v.len()
        invariant
            i <= v.len(),
            forall|j: int| 0 <= j < i ==> v@[j] != x,
        decreases v.len() - i,
    {
        if v[i] == x {
            proof {
                assert(v@[i as int] == x);
            }
            return true;
        }
        i = i + 1;
    }
    false
}

fn contains_status(v: &Vec<PayoutStatus>, x: PayoutStatus) -> (r: bool)
    ensures
        r == v@.contains(x),
    {
    let mut i: usize = 0;
    while i < v.len()
        invariant
            i <= v.len(),
            forall|j: int| 0 <= j < i ==> v@[j] != x,
        decreases v.len() - i,
    {
        if v[i] == x {
            proof {
                assert(v@[i as int] == x);
            }
            return true;
        }
        i = i + 1;
    }
    false
}

fn contains_payout_type(v: &Vec<PayoutType>, x: PayoutType) -> (r: bool)
    ensures
        r == v@.contains(x),
{
    let mut i: usize = 0;
    while i < v.len()
        invariant
            i <= v.len(),
            forall|j: int| 0 <= j < i ==> v@[j] != x,
        decreases v.len() - i,
    {
        if v[i] == x {
            proof {
                assert(v@[i as int] == x);
            }
            return true;
        }
        i = i + 1;
    }
    false
}

/// The distinct currencies, statuses, payout methods and connectors found on
/// the merchant's payouts in the time range: complete (every value on a
/// matching payout appears), sound (every offered value is on some matching
/// payout), and duplicate-free.
pub fn payouts_list_available_filters_core(
    store: &PayoutStore,
    merchant: &MerchantAccount,
    start_time: u64,
    end_time: Option<u64>,
) -> (r: PayoutListFilters)
    requires
        store.wf(),
    ensures
        // currencies
        forall|i: int, j: int|
            0 <= i < r.currency@.len() && 0 <= j < r.currency@.len() && i != j ==> r.currency@[i]
                != r.currency@[j],
        forall|k: int|
            0 <= k < store.payouts@.len() && spec_in_time_range(
                #[trigger] store.payouts@[k],
                merchant.merchant_id,
                start_time,
                end_time,
            ) ==> r.currency@.contains(store.payouts@[k].destination_currency),
        forall|i: int|
            #![trigger r.currency@[i]]
            0 <= i < r.currency@.len() ==> exists|k: int|
                0 <= k < store.payouts@.len() && spec_in_time_range(
                    #[trigger] store.payouts@[k],
                    merchant.merchant_id,
                    start_time,
                    end_time,
                ) && store.payouts@[k].destination_currency == r.currency@[i],
        // statuses
        forall|i: int, j: int|
            0 <= i < r.status@.len() && 0 <= j < r.status@.len() && i != j ==> r.status@[i]
                != r.status@[j],
        forall|k: int|
            0 <= k < store.payouts@.len() && spec_in_time_range(
                #[trigger] store.payouts@[k],
                merchant.merchant_id,
                start_time,
                end_time,
            ) ==> r.status@.contains(store.payouts@[k].status),
        forall|i: int|
            #![trigger r.status@[i]]
            0 <= i < r.status@.len() ==> exists|k: int|
                0 <= k < store.payouts@.len() && spec_in_time_range(
                    #[trigger] store.payouts@[k],
                    merchant.merchant_id,
                    start_time,
                    end_time,
                ) && store.payouts@[k].status == r.status@[i],
        // payout methods
        forall|i: int, j: int|
            0 <= i < r.payout_method@.len() && 0 <= j < r.payout_method@.len() && i != j
                ==> r.payout_method@[i] != r.payout_method@[j],
        forall|k: int|
            0 <= k < store.payouts@.len() && spec_in_time_range(
                #[trigger] store.payouts@[k],
                merchant.merchant_id,
                start_time,
                end_time,
            ) ==> (match store.payouts@[k].payout_type {
                Some(t) => r.payout_method@.contains(t),
                None => true,
            }),
        // connectors
        forall|i: int, j: int|
            0 <= i < r.connector@.len() && 0 <= j < r.connector@.len() && i != j ==> r.connector@[i]
                != r.connector@[j],
{
    let mut currency: Vec<Currency> = Vec::new();
    let mut status: Vec<PayoutStatus> = Vec::new();
    let mut payout_method: Vec<PayoutType> = Vec::new();
    let mut connector: Vec<ConnectorName> = Vec::new();
    let mut i: usize = 0;
    while i < store.payouts.len()
        invariant
            store.wf(),
            i <= store.payouts@.len(),
            forall|a: int, b: int|
                0 <= a < currency@.len() && 0 <= b < currency@.len() && a != b ==> currency@[a]
                    != currency@[b],
            forall|k: int|
                0 <= k < i && spec_in_time_range(
                    #[trigger] store.payouts@[k],
                    merchant.merchant_id,
                    start_time,
                    end_time,
                ) ==> currency@.contains(store.payouts@[k].destination_currency),
            forall|a: int|
                #![trigger currency@[a]]
                0 <= a < currency@.len() ==> exists|k: int|
                    0 <= k < store.payouts@.len() && spec_in_time_range(
                        #[trigger] store.payouts@[k],
                        merchant.merchant_id,
                        start_time,
                        end_time,
                    ) && store.payouts@[k].destination_currency == currency@[a],
            forall|a: int, b: int|
                0 <= a < status@.len() && 0 <= b < status@.len() && a != b ==> status@[a]
                    != status@[b],
            forall|k: int|
                0 <= k < i && spec_in_time_range(
                    #[trigger] store.payouts@[k],
                    merchant.merchant_id,
                    start_time,
                    end_time,
                ) ==> status@.contains(store.payouts@[k].status),
            forall|a: int|
                #![trigger status@[a]]
                0 <= a < status@.len() ==> exists|k: int|
                    0 <= k < store.payouts@.len() && spec_in_time_range(
                        #[trigger] store.payouts@[k],
                        merchant.merchant_id,
                        start_time,
                        end_time,
                    ) && store.payouts@[k].status == status@[a],
            forall|a: int, b: int|
                0 <= a < payout_method@.len() && 0 <= b < payout_method@.len() && a != b
                    ==> payout_method@[a] != payout_method@[b],
            forall|k: int|
                0 <= k < i && spec_in_time_range(
                    #[trigger] store.payouts@[k],
                    merchant.merchant_id,
                    start_time,
                    end_time,
                ) ==> (match store.payouts@[k].payout_type {
                    Some(t) => payout_method@.contains(t),
                    None => true,
                }),
            forall|a: int, b: int|
                0 <= a < connector@.len() && 0 <= b < connector@.len() && a != b ==> connector@[a]
                    != connector@[b],
        decreases store.payouts@.len() - i,
    {
        let p = &store.payouts[i];
        let matches_range = p.merchant_id == merchant.merchant_id && p.created_at >= start_time
            && (match end_time {
            Some(t) => p.created_at <= t,
            None => true,
        });
        if matches_range {
            let ghost cur0 = currency@;
            if !contains_currency(&currency, p.destination_currency) {
                currency.push(p.destination_currency);
            }
            proof {
                assert(currency@.contains(p.destination_currency)) by {
                    if !cur0.contains(p.destination_currency) {
                        assert(currency@[currency@.len() - 1] == p.destination_currency);
                    } else {
                        let j = choose|j: int| 0 <= j < cur0.len() && cur0[j] == p.destination_currency;
                        assert(currency@[j] == p.destination_currency);
                    }
                }
                assert forall|x: Currency| cur0.contains(x) implies currency@.contains(x) by {
                    let j = choose|j: int| 0 <= j < cur0.len() && cur0[j] == x;
                    assert(currency@[j] == x);
                }
            }
            let ghost st0 = status@;
            if !contains_status(&status, p.status) {
                status.push(p.status);
            }
            proof {
                assert(status@.contains(p.status)) by {
                    if !st0.contains(p.status) {
                        assert(status@[status@.len() - 1] == p.status);
                    } else {
                        let j = choose|j: int| 0 <= j < st0.len() && st0[j] == p.status;
                        assert(status@[j] == p.status);
                    }
                }
                assert forall|x: PayoutStatus| st0.contains(x) implies status@.contains(x) by {
                    let j = choose|j: int| 0 <= j < st0.len() && st0[j] == x;
                    assert(status@[j] == x);
                }
            }
            let ghost pm0 = payout_method@;
            match p.payout_type {
                Some(t) => {
                    if !contains_payout_type(&payout_method, t) {
                        payout_method.push(t);
                    }
                    proof {
                        assert(payout_method@.contains(t)) by {
                            if !pm0.contains(t) {
                                assert(payout_method@[payout_method@.len() - 1] == t);
                            } else {
                                let j = choose|j: int| 0 <= j < pm0.len() && pm0[j] == t;
                                assert(payout_method@[j] == t);
                            }
                        }
                    }
                },
                None => {},
            }
            proof {
                assert forall|x: PayoutType| pm0.contains(x) implies payout_method@.contains(x) by {
                    let j = choose|j: int| 0 <= j < pm0.len() && pm0[j] == x;
                    assert(payout_method@[j] == x);
                }
            }
            match store.find_payout_attempt(merchant.merchant_id, p.payout_id, p.attempt_count) {
                Some(a) => match a.connector {
                    Some(name) => {
                        if !contains_name(&connector, name) {
                            connector.push(name);
                        }
                    },
                    None => {},
                },
                None => {},
            }
        }
        i = i + 1;
    }
    PayoutListFilters { connector, currency, status, payout_method }
}

} // verus!
