//! Payout links: a customer-facing resumable session over a payout, created
//! at most once per payout at creation time when the request asks for one.

use vstd::prelude::*;

use crate::api::{FreshIds, PayoutCreateRequest, PayoutsConfig};
use crate::error::PayoutError;
use crate::flows::{saturating_add_u64, spec_sat_add_u64};
use crate::records::{BusinessProfileRecord, PayoutLinkRecord, PayoutLinkStatus};
use crate::store::PayoutStore;
use crate::textfmt::{
    base_from_domain, is_absolute_url, parses_as_absolute_url, payout_link_url_chars,
    render_payout_link_url,
};
use crate::types::clone_opt_string;

verus! {

/// The base the link URL is formed under: the profile's own domain when it
/// has one, else the deployment's base URL.
pub open spec fn chosen_link_base(
    profile: BusinessProfileRecord,
    config: PayoutsConfig,
) -> Seq<char> {
    match profile.payout_link_config {
        Some(c) => match c.domain_name {
            Some(d) => "https://"@ + d@,
            None => config.base_url@,
        },
        None => config.base_url@,
    }
}

/// The link id used: the one the request names, else the fresh one.
pub open spec fn chosen_link_id(req: PayoutCreateRequest, fresh: FreshIds) -> u64 {
    match req.payout_link_config {
        Some(c) => match c.payout_link_id {
            Some(id) => id,
            None => fresh.payout_link_id,
        },
        None => fresh.payout_link_id,
    }
}

/// The session expiry used: the one the request names, else the default.
pub open spec fn chosen_session_expiry(req: PayoutCreateRequest, config: PayoutsConfig) -> u64 {
    match req.session_expiry {
        Some(e) => e,
        None => config.default_session_expiry,
    }
}

/// Inserts a payout link; a taken link id is a duplicate-link error.
pub fn create_payout_link_db_entry(store: &mut PayoutStore, link: PayoutLinkRecord) -> (r: Result<
    (),
    PayoutError,
>)
    requires
        old(store).wf(),
    ensures
        final(store).wf(),
        final(store).same_except_links(*old(store)),
        r is Ok <==> !old(store).has_link(link.link_id),
        r is Ok ==> final(store).links@ == old(store).links@.push(link),
        r is Err ==> *final(store) == *old(store),
        r matches Err(e) ==> e matches PayoutError::DuplicatePayoutLink { payout_link_id } && payout_link_id == link.link_id,
{
    let link_id = link.link_id;
    match store.insert_payout_link(link) {
        Ok(()) => Ok(()),
        Err(_) => Err(PayoutError::DuplicatePayoutLink { payout_link_id: link_id }),
    }
}

/// Builds and stores the payout link for a creation request.
///
/// Refused when the business profile has no payout-link configuration, when
/// the request lacks the amount or the currency, when the formed URL is not
/// an absolute URL, or when the link id is already taken.
pub fn create_payout_link(
    store: &mut PayoutStore,
    config: &PayoutsConfig,
    business_profile: &BusinessProfileRecord,
    customer_id: u64,
    merchant_id: u64,
    req: &PayoutCreateRequest,
    payout_id: u64,
    fresh: &FreshIds,
    now: u64,
) -> (r: Result<PayoutLinkRecord, PayoutError>)
    requires
        old(store).wf(),
    ensures
        final(store).wf(),
        final(store).same_except_links(*old(store)),
        r is Err ==> *final(store) == *old(store),
        r is Ok <==> business_profile.payout_link_config is Some && req.amount is Some
            && req.currency is Some && is_absolute_url(
            payout_link_url_chars(chosen_link_base(*business_profile, *config), merchant_id, payout_id),
        ) && !old(store).has_link(chosen_link_id(*req, *fresh)),
        business_profile.payout_link_config is None ==> (r matches Err(e)
            && e is LinkConfigurationError),
        r matches Ok(l) ==> ({
            &&& l.link_id == chosen_link_id(*req, *fresh)
            &&& l.payout_id == payout_id
            &&& l.merchant_id == merchant_id
            &&& l.customer_id == customer_id
            &&& l.status == PayoutLinkStatus::Initiated
            &&& l.url@ == payout_link_url_chars(
                chosen_link_base(*business_profile, *config),
                merchant_id,
                payout_id,
            )
            &&& is_absolute_url(l.url@)
            &&& l.client_secret == fresh.link_client_secret
            &&& l.session_expiry == chosen_session_expiry(*req, *config)
            &&& l.expiry_time == spec_sat_add_u64(now, chosen_session_expiry(*req, *config))
            &&& req.amount == Some(l.amount)
            &&& req.currency == Some(l.currency)
            &&& final(store).links@.len() == old(store).links@.len() + 1
            &&& crate::records::link_like(final(store).links@.last(), l)
            &&& forall|i: int|
                0 <= i < old(store).links@.len() ==> final(store).links@[i] == old(store).links@[i]
        }),
{
    let profile_config = match &business_profile.payout_link_config {
        Some(c) => c,
        None => {
            return Err(
                PayoutError::LinkConfigurationError {
                    message:
                        "Payout links cannot be used without setting allowed_domains in profile".to_owned(),
                },
            );
        },
    };
    let amount = match req.amount {
        Some(a) => a,
        None => {
            return Err(PayoutError::MissingRequiredField { field_name: "amount".to_owned() });
        },
    };
    let currency = match req.currency {
        Some(c) => c,
        None => {
            return Err(PayoutError::MissingRequiredField { field_name: "currency".to_owned() });
        },
    };
    let base = match &profile_config.domain_name {
        Some(d) => base_from_domain(d.as_str()),
        None => config.base_url.clone(),
    };
    let url = render_payout_link_url(base.as_str(), merchant_id, payout_id);
    if !parses_as_absolute_url(url.as_str()) {
        return Err(PayoutError::InternalServerError);
    }
    // UI configuration: the request's settings win over the profile's.
    let (logo, merchant_name, theme) = match &req.payout_link_config {
        Some(c) => (
            clone_opt_string(&c.logo),
            clone_opt_string(&c.merchant_name),
            clone_opt_string(&c.theme),
        ),
        None => (
            clone_opt_string(&profile_config.logo),
            clone_opt_string(&profile_config.merchant_name),
            clone_opt_string(&profile_config.theme),
        ),
    };
    let link_id = match &req.payout_link_config {
        Some(c) => match c.payout_link_id {
            Some(id) => id,
            None => fresh.payout_link_id,
        },
        None => fresh.payout_link_id,
    };
    let session_expiry = match req.session_expiry {
        Some(e) => e,
        None => config.default_session_expiry,
    };
    let link = PayoutLinkRecord {
        link_id,
        payout_id,
        merchant_id,
        customer_id,
        status: PayoutLinkStatus::Initiated,
        url,
        client_secret: fresh.link_client_secret,
        session_expiry,
        expiry_time: saturating_add_u64(now, session_expiry),
        amount,
        currency,
        allowed_domains: crate::types::clone_string_vec(&profile_config.allowed_domains),
        logo,
        merchant_name,
        theme,
        return_url: clone_opt_string(&req.return_url),
    };
    let result = link.duplicate();
    match create_payout_link_db_entry(store, link) {
        Ok(()) => Ok(result),
        Err(e) => Err(e),
    }
}

} // verus!
