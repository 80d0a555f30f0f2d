//! Plain value types shared across the payout flows.

use vstd::prelude::*;

verus! {

/// ISO currency of a payout, reduced to the currencies the engine routes.
#[derive(Clone, Copy, Debug, PartialEq, Eq, Structural)]
pub enum Currency {
    Usd,
    Eur,
    Gbp,
    Inr,
    Sgd,
    Aud,
    Cad,
    Jpy,
}

/// The rail a payout is sent over.
#[derive(Clone, Copy, Debug, PartialEq, Eq, Structural)]
pub enum PayoutType {
    Bank,
    Card,
    Wallet,
}

/// Who the payee is, from the merchant's point of view.
#[derive(Clone, Copy, Debug, PartialEq, Eq, Structural)]
pub enum EntityType {
    Individual,
    Company,
    NonProfit,
    PublicSector,
}

impl core::default::Default for EntityType {
    /// The payee entity assumed when a request does not say.
    fn default() -> (r: Self)
        ensures
            r == EntityType::Individual,
    {
        EntityType::Individual
    }
}

/// Priority the merchant asked for when sending the funds.
#[derive(Clone, Copy, Debug, PartialEq, Eq, Structural)]
pub enum PayoutSendPriority {
    Instant,
    Fast,
    Regular,
    Wire,
}

/// Payout method details, as plain values. A value of this type is what the
/// vault stores under a payout token.
#[derive(Clone, Copy, Debug, PartialEq, Eq, Structural)]
pub enum PayoutMethodData {
    Bank { account_number: u64, routing_number: u64 },
    Card { card_number: u64, expiry_month: u8, expiry_year: u16 },
    Wallet { telephone_number: u64 },
}

/// Connectors the engine can route payouts through.
#[derive(Clone, Copy, Debug, PartialEq, Eq, Structural)]
pub enum ConnectorName {
    Adyenplatform,
    Stripe,
    Wise,
    Paypal,
    Ebanx,
    Cybersource,
    Nuvei,
    Payone,
}

/// Copies an optional owned string, preserving the value exactly.
pub fn clone_opt_string(o: &Option<String>) -> (r: Option<String>)
    ensures
        r == *o,
{
    match o {
        Some(s) => Some(s.clone()),
        None => None,
    }
}

/// Copies a list of owned strings, preserving the sequence of values.
pub fn clone_string_vec(v: &Vec<String>) -> (r: Vec<String>)
    ensures
        r@ == v@,
{
    let mut r: Vec<String> = Vec::new();
    let mut i: usize = 0;
    while i < v.len()
        invariant
            i <= v.len(),
            r@ == v@.subrange(0, i as int),
        decreases v.len() - i,
    {
        r.push(v[i].clone());
        i = i + 1;
        proof {
            assert(r@ =~= v@.subrange(0, i as int));
        }
    }
    proof {
        assert(r@ =~= v@);
    }
    r
}

} // verus!
