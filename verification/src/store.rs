//! An in-memory record store with exact contracts. Every key space is kept
//! duplicate-free, writes touch exactly the addressed record, and reads
//! return a value equal to the stored one.

use vstd::pervasive::VecAdditionalExecFns;
use vstd::prelude::*;

use crate::records::{
    customer_like, link_like, profile_like, AddressRecord, BusinessProfileRecord, CustomerRecord,
    PayoutAttemptRecord, PayoutLinkRecord, PayoutsRecord, ScheduledTaskRecord, VaultEntry,
};

verus! {

/// Why a store write was refused.
#[derive(Clone, Copy, Debug, PartialEq, Eq, Structural)]
pub enum StoreError {
    DuplicateKey,
}

pub open spec fn payout_key_matches(p: PayoutsRecord, merchant_id: u64, payout_id: u64) -> bool {
    p.merchant_id == merchant_id && p.payout_id == payout_id
}

pub open spec fn attempt_key_matches(
    a: PayoutAttemptRecord,
    merchant_id: u64,
    payout_id: u64,
    attempt_number: u32,
) -> bool {
    a.merchant_id == merchant_id && a.payout_id == payout_id && a.attempt_number == attempt_number
}

pub open spec fn customer_key_matches(c: CustomerRecord, merchant_id: u64, customer_id: u64) -> bool {
    c.merchant_id == merchant_id && c.customer_id == customer_id
}

pub open spec fn task_key_matches(
    t: ScheduledTaskRecord,
    merchant_id: u64,
    payout_id: u64,
    attempt_number: u32,
) -> bool {
    t.merchant_id == merchant_id && t.payout_id == payout_id && t.attempt_number == attempt_number
}

pub open spec fn vault_key_matches(v: VaultEntry, merchant_id: u64, token: u64) -> bool {
    v.merchant_id == merchant_id && v.token == token
}

/// Persistent state the payout flows read and write.
pub struct PayoutStore {
    pub payouts: Vec<PayoutsRecord>,
    pub attempts: Vec<PayoutAttemptRecord>,
    pub customers: Vec<CustomerRecord>,
    pub addresses: Vec<AddressRecord>,
    pub profiles: Vec<BusinessProfileRecord>,
    pub links: Vec<PayoutLinkRecord>,
    pub tasks: Vec<ScheduledTaskRecord>,
    pub vault: Vec<VaultEntry>,
}

impl PayoutStore {
    /// Each key space holds at most one record per key.
    pub open spec fn wf(self) -> bool {
        &&& forall|i: int, j: int|
            0 <= i < self.payouts@.len() && 0 <= j < self.payouts@.len() && i != j
                ==> !(self.payouts@[i].merchant_id == self.payouts@[j].merchant_id
                && self.payouts@[i].payout_id == self.payouts@[j].payout_id)
        &&& forall|i: int, j: int|
            0 <= i < self.attempts@.len() && 0 <= j < self.attempts@.len() && i != j
                ==> !(self.attempts@[i].merchant_id == self.attempts@[j].merchant_id
                && self.attempts@[i].payout_id == self.attempts@[j].payout_id
                && self.attempts@[i].attempt_number == self.attempts@[j].attempt_number)
        &&& forall|i: int, j: int|
            0 <= i < self.customers@.len() && 0 <= j < self.customers@.len() && i != j
                ==> !(self.customers@[i].merchant_id == self.customers@[j].merchant_id
                && self.customers@[i].customer_id == self.customers@[j].customer_id)
        &&& forall|i: int, j: int|
            0 <= i < self.addresses@.len() && 0 <= j < self.addresses@.len() && i != j
                ==> self.addresses@[i].address_id != self.addresses@[j].address_id
        &&& forall|i: int, j: int|
            0 <= i < self.profiles@.len() && 0 <= j < self.profiles@.len() && i != j
                ==> self.profiles@[i].profile_id != self.profiles@[j].profile_id
        &&& forall|i: int, j: int|
            0 <= i < self.links@.len() && 0 <= j < self.links@.len() && i != j
                ==> self.links@[i].link_id != self.links@[j].link_id
        &&& forall|i: int, j: int|
            0 <= i < self.tasks@.len() && 0 <= j < self.tasks@.len() && i != j
                ==> !(self.tasks@[i].merchant_id == self.tasks@[j].merchant_id
                && self.tasks@[i].payout_id == self.tasks@[j].payout_id
                && self.tasks@[i].attempt_number == self.tasks@[j].attempt_number)
        &&& forall|i: int, j: int|
            0 <= i < self.vault@.len() && 0 <= j < self.vault@.len() && i != j
                ==> !(self.vault@[i].merchant_id == self.vault@[j].merchant_id
                && self.vault@[i].token == self.vault@[j].token)
    }

    pub open spec fn has_payout(self, merchant_id: u64, payout_id: u64) -> bool {
        exists|i: int|
            0 <= i < self.payouts@.len() && payout_key_matches(
                self.payouts@[i],
                merchant_id,
                payout_id,
            )
    }

    pub open spec fn has_attempt(
        self,
        merchant_id: u64,
        payout_id: u64,
        attempt_number: u32,
    ) -> bool {
        exists|i: int|
            0 <= i < self.attempts@.len() && attempt_key_matches(
                self.attempts@[i],
                merchant_id,
                payout_id,
                attempt_number,
            )
    }

    pub open spec fn has_customer(self, merchant_id: u64, customer_id: u64) -> bool {
        exists|i: int|
            0 <= i < self.customers@.len() && customer_key_matches(
                self.customers@[i],
                merchant_id,
                customer_id,
            )
    }

    pub open spec fn has_address(self, address_id: u64) -> bool {
        exists|i: int| 0 <= i < self.addresses@.len() && self.addresses@[i].address_id == address_id
    }

    pub open spec fn has_profile(self, profile_id: u64) -> bool {
        exists|i: int| 0 <= i < self.profiles@.len() && self.profiles@[i].profile_id == profile_id
    }

    pub open spec fn has_link(self, link_id: u64) -> bool {
        exists|i: int| 0 <= i < self.links@.len() && self.links@[i].link_id == link_id
    }

    pub open spec fn has_task(self, merchant_id: u64, payout_id: u64, attempt_number: u32) -> bool {
        exists|i: int|
            0 <= i < self.tasks@.len() && task_key_matches(
                self.tasks@[i],
                merchant_id,
                payout_id,
                attempt_number,
            )
    }

    pub open spec fn has_vault_entry(self, merchant_id: u64, token: u64) -> bool {
        exists|i: int|
            0 <= i < self.vault@.len() && vault_key_matches(self.vault@[i], merchant_id, token)
    }

    pub open spec fn same_except_payouts(self, other: PayoutStore) -> bool {
        self.attempts == other.attempts && self.customers == other.customers
            && self.addresses == other.addresses && self.profiles == other.profiles
            && self.links == other.links && self.tasks == other.tasks && self.vault == other.vault
    }

    pub open spec fn same_except_attempts(self, other: PayoutStore) -> bool {
        self.payouts == other.payouts && self.customers == other.customers
            && self.addresses == other.addresses && self.profiles == other.profiles
            && self.links == other.links && self.tasks == other.tasks && self.vault == other.vault
    }

    pub open spec fn same_except_customers(self, other: PayoutStore) -> bool {
        self.payouts == other.payouts && self.attempts == other.attempts
            && self.addresses == other.addresses && self.profiles == other.profiles
            && self.links == other.links && self.tasks == other.tasks && self.vault == other.vault
    }

    pub open spec fn same_except_addresses(self, other: PayoutStore) -> bool {
        self.payouts == other.payouts && self.attempts == other.attempts
            && self.customers == other.customers && self.profiles == other.profiles
            && self.links == other.links && self.tasks == other.tasks && self.vault == other.vault
    }

    pub open spec fn same_except_profiles(self, other: PayoutStore) -> bool {
        self.payouts == other.payouts && self.attempts == other.attempts
            && self.customers == other.customers && self.addresses == other.addresses
            && self.links == other.links && self.tasks == other.tasks && self.vault == other.vault
    }

    pub open spec fn same_except_links(self, other: PayoutStore) -> bool {
        self.payouts == other.payouts && self.attempts == other.attempts
            && self.customers == other.customers && self.addresses == other.addresses
            && self.profiles == other.profiles && self.tasks == other.tasks
            && self.vault == other.vault
    }

    pub open spec fn same_except_tasks(self, other: PayoutStore) -> bool {
        self.payouts == other.payouts && self.attempts == other.attempts
            && self.customers == other.customers && self.addresses == other.addresses
            && self.profiles == other.profiles && self.links == other.links
            && self.vault == other.vault
    }

    pub open spec fn same_except_vault(self, other: PayoutStore) -> bool {
        self.payouts == other.payouts && self.attempts == other.attempts
            && self.customers == other.customers && self.addresses == other.addresses
            && self.profiles == other.profiles && self.links == other.links
            && self.tasks == other.tasks
    }

    /// An empty store.
    pub fn new() -> (r: Self)
        ensures
            r.wf(),
            r.payouts@.len() == 0,
            r.attempts@.len() == 0,
            r.customers@.len() == 0,
            r.addresses@.len() == 0,
            r.profiles@.len() == 0,
            r.links@.len() == 0,
            r.tasks@.len() == 0,
            r.vault@.len() == 0,
    {
        PayoutStore {
            payouts: Vec::new(),
            attempts: Vec::new(),
            customers: Vec::new(),
            addresses: Vec::new(),
            profiles: Vec::new(),
            links: Vec::new(),
            tasks: Vec::new(),
            vault: Vec::new(),
        }
    }

    fn find_payout_index(&self, merchant_id: u64, payout_id: u64) -> (r: Option<usize>)
        ensures
            match r {
                Some(i) => i < self.payouts@.len() && payout_key_matches(
                    self.payouts@[i as int],
                    merchant_id,
                    payout_id,
                ),
                None => !self.has_payout(merchant_id, payout_id),
            },
    {
        let mut i: usize = 0;
        while i < self.payouts.len()
            invariant
                i <= self.payouts@.len(),
                forall|j: int|
                    0 <= j < i ==> !payout_key_matches(self.payouts@[j], merchant_id, payout_id),
            decreases self.payouts@.len() - i,
        {
            if self.payouts[i].merchant_id == merchant_id && self.payouts[i].payout_id == payout_id {
                return Some(i);
            }
            i = i + 1;
        }
        None
    }

    /// Looks a payout up by its key; the returned record equals the stored one.
    pub fn find_payout(&self, merchant_id: u64, payout_id: u64) -> (r: Option<PayoutsRecord>)
        ensures
            match r {
                Some(p) => payout_key_matches(p, merchant_id, payout_id) && self.payouts@.contains(
                    p,
                ),
                None => !self.has_payout(merchant_id, payout_id),
            },
    {
        match self.find_payout_index(merchant_id, payout_id) {
            Some(i) => {
                let p = self.payouts[i].duplicate();
                proof {
                    assert(self.payouts@.contains(self.payouts@[i as int]));
                }
                Some(p)
            },
            None => None,
        }
    }

    /// Adds a payout under a fresh key; refused when the key is taken.
    pub fn insert_payout(&mut self, p: &PayoutsRecord) -> (r: Result<(), StoreError>)
        requires
            old(self).wf(),
        ensures
            final(self).wf(),
            final(self).same_except_payouts(*old(self)),
            match r {
                Ok(()) => !old(self).has_payout(p.merchant_id, p.payout_id)
                    && final(self).payouts@ == old(self).payouts@.push(*p),
                Err(e) => e == StoreError::DuplicateKey && old(self).has_payout(
                    p.merchant_id,
                    p.payout_id,
                ) && *final(self) == *old(self),
            },
    {
        match self.find_payout_index(p.merchant_id, p.payout_id) {
            Some(_) => Err(StoreError::DuplicateKey),
            None => {
                self.payouts.push(p.duplicate());
                Ok(())
            },
        }
    }

    /// Overwrites the payout with the same key as the given record.
    pub fn replace_payout(&mut self, p: &PayoutsRecord)
        requires
            old(self).wf(),
            old(self).has_payout(p.merchant_id, p.payout_id),
        ensures
            final(self).wf(),
            final(self).same_except_payouts(*old(self)),
            final(self).payouts@.contains(*p),
            final(self).payouts@.len() == old(self).payouts@.len(),
            exists|i: int|
                0 <= i < old(self).payouts@.len() && payout_key_matches(
                    old(self).payouts@[i],
                    p.merchant_id,
                    p.payout_id,
                ) && final(self).payouts@ == old(self).payouts@.update(i, *p),
    {
        match self.find_payout_index(p.merchant_id, p.payout_id) {
            Some(i) => {
                self.payouts.set(i, p.duplicate());
                proof {
                    assert(final(self).payouts@[i as int] == *p);
                    assert(final(self).payouts@.contains(*p));
                }
            },
            None => {
                proof {
                    assert(false);
                }
            },
        }
    }

    fn find_attempt_index(&self, merchant_id: u64, payout_id: u64, attempt_number: u32) -> (r:
        Option<usize>)
        ensures
            match r {
                Some(i) => i < self.attempts@.len() && attempt_key_matches(
                    self.attempts@[i as int],
                    merchant_id,
                    payout_id,
                    attempt_number,
                ),
                None => !self.has_attempt(merchant_id, payout_id, attempt_number),
            },
    {
        let mut i: usize = 0;
        while i < self.attempts.len()
            invariant
                i <= self.attempts@.len(),
                forall|j: int|
                    0 <= j < i ==> !attempt_key_matches(
                        self.attempts@[j],
                        merchant_id,
                        payout_id,
                        attempt_number,
                    ),
            decreases self.attempts@.len() - i,
        {
            if self.attempts[i].merchant_id == merchant_id && self.attempts[i].payout_id == payout_id
                && self.attempts[i].attempt_number == attempt_number {
                return Some(i);
            }
            i = i + 1;
        }
        None
    }

    /// Looks an attempt up by its key; the returned record equals the stored one.
    pub fn find_payout_attempt(
        &self,
        merchant_id: u64,
        payout_id: u64,
        attempt_number: u32,
    ) -> (r: Option<PayoutAttemptRecord>)
        ensures
            match r {
                Some(a) => attempt_key_matches(a, merchant_id, payout_id, attempt_number)
                    && self.attempts@.contains(a),
                None => !self.has_attempt(merchant_id, payout_id, attempt_number),
            },
    {
        match self.find_attempt_index(merchant_id, payout_id, attempt_number) {
            Some(i) => {
                let a = self.attempts[i].duplicate();
                proof {
                    assert(self.attempts@.contains(self.attempts@[i as int]));
                }
                Some(a)
            },
            None => None,
        }
    }

    /// Adds an attempt under a fresh key; refused when the key is taken.
    pub fn insert_payout_attempt(&mut self, a: &PayoutAttemptRecord) -> (r: Result<(), StoreError>)
        requires
            old(self).wf(),
        ensures
            final(self).wf(),
            final(self).same_except_attempts(*old(self)),
            match r {
                Ok(()) => !old(self).has_attempt(a.merchant_id, a.payout_id, a.attempt_number)
                    && final(self).attempts@ == old(self).attempts@.push(*a),
                Err(e) => e == StoreError::DuplicateKey && old(self).has_attempt(
                    a.merchant_id,
                    a.payout_id,
                    a.attempt_number,
                ) && *final(self) == *old(self),
            },
    {
        match self.find_attempt_index(a.merchant_id, a.payout_id, a.attempt_number) {
            Some(_) => Err(StoreError::DuplicateKey),
            None => {
                self.attempts.push(a.duplicate());
                Ok(())
            },
        }
    }

    /// Overwrites the attempt with the same key as the given record.
    pub fn replace_payout_attempt(&mut self, a: &PayoutAttemptRecord)
        requires
            old(self).wf(),
            old(self).has_attempt(a.merchant_id, a.payout_id, a.attempt_number),
        ensures
            final(self).wf(),
            final(self).same_except_attempts(*old(self)),
            final(self).attempts@.contains(*a),
            final(self).attempts@.len() == old(self).attempts@.len(),
            exists|i: int|
                0 <= i < old(self).attempts@.len() && attempt_key_matches(
                    old(self).attempts@[i],
                    a.merchant_id,
                    a.payout_id,
                    a.attempt_number,
                ) && final(self).attempts@ == old(self).attempts@.update(i, *a),
    {
        match self.find_attempt_index(a.merchant_id, a.payout_id, a.attempt_number) {
            Some(i) => {
                self.attempts.set(i, a.duplicate());
                proof {
                    assert(final(self).attempts@[i as int] == *a);
                    assert(final(self).attempts@.contains(*a));
                }
            },
            None => {
                proof {
                    assert(false);
                }
            },
        }
    }

    fn find_customer_index(&self, merchant_id: u64, customer_id: u64) -> (r: Option<usize>)
        ensures
            match r {
                Some(i) => i < self.customers@.len() && customer_key_matches(
                    self.customers@[i as int],
                    merchant_id,
                    customer_id,
                ),
                None => !self.has_customer(merchant_id, customer_id),
            },
    {
        let mut i: usize = 0;
        while i < self.customers.len()
            invariant
                i <= self.customers@.len(),
                forall|j: int|
                    0 <= j < i ==> !customer_key_matches(
                        self.customers@[j],
                        merchant_id,
                        customer_id,
                    ),
            decreases self.customers@.len() - i,
        {
            if self.customers[i].merchant_id == merchant_id && self.customers[i].customer_id
                == customer_id {
                return Some(i);
            }
            i = i + 1;
        }
        None
    }

    /// Looks a customer up; the returned record carries the stored values.
    pub fn find_customer(&self, merchant_id: u64, customer_id: u64) -> (r: Option<CustomerRecord>)
        ensures
            match r {
                Some(c) => customer_key_matches(c, merchant_id, customer_id) && exists|i: int|
                    0 <= i < self.customers@.len() && customer_like(c, self.customers@[i]),
                None => !self.has_customer(merchant_id, customer_id),
            },
    {
        match self.find_customer_index(merchant_id, customer_id) {
            Some(i) => {
                let c = self.customers[i].duplicate();
                proof {
                    assert(0 <= i < self.customers@.len() && customer_like(
                        c,
                        self.customers@[i as int],
                    ));
                }
                Some(c)
            },
            None => None,
        }
    }

    /// Adds a customer under a fresh key; refused when the key is taken.
    pub fn insert_customer(&mut self, c: CustomerRecord) -> (r: Result<(), StoreError>)
        requires
            old(self).wf(),
        ensures
            final(self).wf(),
            final(self).same_except_customers(*old(self)),
            match r {
                Ok(()) => !old(self).has_customer(c.merchant_id, c.customer_id)
                    && final(self).customers@ == old(self).customers@.push(c),
                Err(e) => e == StoreError::DuplicateKey && old(self).has_customer(
                    c.merchant_id,
                    c.customer_id,
                ) && *final(self) == *old(self),
            },
    {
        match self.find_customer_index(c.merchant_id, c.customer_id) {
            Some(_) => Err(StoreError::DuplicateKey),
            None => {
                self.customers.push(c);
                Ok(())
            },
        }
    }

    /// Stores a customer, overwriting any record under the same key.
    pub fn upsert_customer(&mut self, c: CustomerRecord)
        requires
            old(self).wf(),
        ensures
            final(self).wf(),
            final(self).same_except_customers(*old(self)),
            old(self).has_customer(c.merchant_id, c.customer_id) ==> exists|i: int|
                0 <= i < old(self).customers@.len() && customer_key_matches(
                    old(self).customers@[i],
                    c.merchant_id,
                    c.customer_id,
                ) && final(self).customers@ == old(self).customers@.update(i, c),
            !old(self).has_customer(c.merchant_id, c.customer_id)
                ==> final(self).customers@ == old(self).customers@.push(c),
    {
        match self.find_customer_index(c.merchant_id, c.customer_id) {
            Some(i) => {
                self.customers.set(i, c);
            },
            None => {
                self.customers.push(c);
            },
        }
    }

    /// Overwrites the customer with the same key as the given record.
    pub fn replace_customer(&mut self, c: CustomerRecord)
        requires
            old(self).wf(),
            old(self).has_customer(c.merchant_id, c.customer_id),
        ensures
            final(self).wf(),
            final(self).same_except_customers(*old(self)),
            final(self).customers@.len() == old(self).customers@.len(),
            exists|i: int|
                0 <= i < old(self).customers@.len() && customer_key_matches(
                    old(self).customers@[i],
                    c.merchant_id,
                    c.customer_id,
                ) && final(self).customers@ == old(self).customers@.update(i, c),
    {
        match self.find_customer_index(c.merchant_id, c.customer_id) {
            Some(i) => {
                self.customers.set(i, c);
            },
            None => {
                proof {
                    assert(false);
                }
            },
        }
    }

    fn find_address_index(&self, address_id: u64) -> (r: Option<usize>)
        ensures
            match r {
                Some(i) => i < self.addresses@.len() && self.addresses@[i as int].address_id
                    == address_id,
                None => !self.has_address(address_id),
            },
    {
        let mut i: usize = 0;
        while i < self.addresses.len()
            invariant
                i <= self.addresses@.len(),
                forall|j: int| 0 <= j < i ==> self.addresses@[j].address_id != address_id,
            decreases self.addresses@.len() - i,
        {
            if self.addresses[i].address_id == address_id {
                return Some(i);
            }
            i = i + 1;
        }
        None
    }

    /// Looks an address up; the returned record equals the stored one.
    pub fn find_address(&self, address_id: u64) -> (r: Option<AddressRecord>)
        ensures
            match r {
                Some(a) => a.address_id == address_id && self.addresses@.contains(a),
                None => !self.has_address(address_id),
            },
    {
        match self.find_address_index(address_id) {
            Some(i) => {
                let a = self.addresses[i].duplicate();
                proof {
                    assert(self.addresses@.contains(self.addresses@[i as int]));
                }
                Some(a)
            },
            None => None,
        }
    }

    /// Adds an address under a fresh id; refused when the id is taken.
    pub fn insert_address(&mut self, a: &AddressRecord) -> (r: Result<(), StoreError>)
        requires
            old(self).wf(),
        ensures
            final(self).wf(),
            final(self).same_except_addresses(*old(self)),
            match r {
                Ok(()) => !old(self).has_address(a.address_id)
                    && final(self).addresses@ == old(self).addresses@.push(*a),
                Err(e) => e == StoreError::DuplicateKey && old(self).has_address(a.address_id)
                    && *final(self) == *old(self),
            },
    {
        match self.find_address_index(a.address_id) {
            Some(_) => Err(StoreError::DuplicateKey),
            None => {
                self.addresses.push(a.duplicate());
                Ok(())
            },
        }
    }

    fn find_profile_index(&self, profile_id: u64) -> (r: Option<usize>)
        ensures
            match r {
                Some(i) => i < self.profiles@.len() && self.profiles@[i as int].profile_id
                    == profile_id,
                None => !self.has_profile(profile_id),
            },
    {
        let mut i: usize = 0;
        while i < self.profiles.len()
            invariant
                i <= self.profiles@.len(),
                forall|j: int| 0 <= j < i ==> self.profiles@[j].profile_id != profile_id,
            decreases self.profiles@.len() - i,
        {
            if self.profiles[i].profile_id == profile_id {
                return Some(i);
            }
            i = i + 1;
        }
        None
    }

    /// Looks a business profile up; the returned record carries the stored values.
    pub fn find_business_profile(&self, profile_id: u64) -> (r: Option<BusinessProfileRecord>)
        ensures
            match r {
                Some(p) => p.profile_id == profile_id && exists|i: int|
                    0 <= i < self.profiles@.len() && profile_like(p, self.profiles@[i]),
                None => !self.has_profile(profile_id),
            },
    {
        match self.find_profile_index(profile_id) {
            Some(i) => {
                let p = self.profiles[i].duplicate();
                proof {
                    assert(0 <= i < self.profiles@.len() && profile_like(
                        p,
                        self.profiles@[i as int],
                    ));
                }
                Some(p)
            },
            None => None,
        }
    }

    /// Adds a business profile under a fresh id; refused when the id is taken.
    pub fn insert_business_profile(&mut self, p: BusinessProfileRecord) -> (r: Result<
        (),
        StoreError,
    >)
        requires
            old(self).wf(),
        ensures
            final(self).wf(),
            final(self).same_except_profiles(*old(self)),
            match r {
                Ok(()) => !old(self).has_profile(p.profile_id)
                    && final(self).profiles@ == old(self).profiles@.push(p),
                Err(e) => e == StoreError::DuplicateKey && old(self).has_profile(p.profile_id)
                    && *final(self) == *old(self),
            },
    {
        match self.find_profile_index(p.profile_id) {
            Some(_) => Err(StoreError::DuplicateKey),
            None => {
                self.profiles.push(p);
                Ok(())
            },
        }
    }

    fn find_link_index(&self, link_id: u64) -> (r: Option<usize>)
        ensures
            match r {
                Some(i) => i < self.links@.len() && self.links@[i as int].link_id == link_id,
                None => !self.has_link(link_id),
            },
    {
        let mut i: usize = 0;
        while i < self.links.len()
            invariant
                i <= self.links@.len(),
                forall|j: int| 0 <= j < i ==> self.links@[j].link_id != link_id,
            decreases self.links@.len() - i,
        {
            if self.links[i].link_id == link_id {
                return Some(i);
            }
            i = i + 1;
        }
        None
    }

    /// Looks a payout link up; the returned record carries the stored values.
    pub fn find_payout_link(&self, link_id: u64) -> (r: Option<PayoutLinkRecord>)
        ensures
            match r {
                Some(l) => l.link_id == link_id && exists|i: int|
                    0 <= i < self.links@.len() && link_like(l, self.links@[i]),
                None => !self.has_link(link_id),
            },
    {
        match self.find_link_index(link_id) {
            Some(i) => {
                let l = self.links[i].duplicate();
                proof {
                    assert(0 <= i < self.links@.len() && link_like(l, self.links@[i as int]));
                }
                Some(l)
            },
            None => None,
        }
    }

    /// Adds a payout link under a fresh id; refused when the id is taken.
    pub fn insert_payout_link(&mut self, l: PayoutLinkRecord) -> (r: Result<(), StoreError>)
        requires
            old(self).wf(),
        ensures
            final(self).wf(),
            final(self).same_except_links(*old(self)),
            match r {
                Ok(()) => !old(self).has_link(l.link_id)
                    && final(self).links@ == old(self).links@.push(l),
                Err(e) => e == StoreError::DuplicateKey && old(self).has_link(l.link_id)
                    && *final(self) == *old(self),
            },
    {
        match self.find_link_index(l.link_id) {
            Some(_) => Err(StoreError::DuplicateKey),
            None => {
                self.links.push(l);
                Ok(())
            },
        }
    }

    /// Overwrites the link with the same id as the given record.
    pub fn replace_payout_link(&mut self, l: PayoutLinkRecord)
        requires
            old(self).wf(),
            old(self).has_link(l.link_id),
        ensures
            final(self).wf(),
            final(self).same_except_links(*old(self)),
            final(self).links@.len() == old(self).links@.len(),
            exists|i: int|
                0 <= i < old(self).links@.len() && old(self).links@[i].link_id == l.link_id
                    && final(self).links@ == old(self).links@.update(i, l),
    {
        match self.find_link_index(l.link_id) {
            Some(i) => {
                self.links.set(i, l);
            },
            None => {
                proof {
                    assert(false);
                }
            },
        }
    }

    fn find_task_index(&self, merchant_id: u64, payout_id: u64, attempt_number: u32) -> (r: Option<
        usize,
    >)
        ensures
            match r {
                Some(i) => i < self.tasks@.len() && task_key_matches(
                    self.tasks@[i as int],
                    merchant_id,
                    payout_id,
                    attempt_number,
                ),
                None => !self.has_task(merchant_id, payout_id, attempt_number),
            },
    {
        let mut i: usize = 0;
        while i < self.tasks.len()
            invariant
                i <= self.tasks@.len(),
                forall|j: int|
                    0 <= j < i ==> !task_key_matches(
                        self.tasks@[j],
                        merchant_id,
                        payout_id,
                        attempt_number,
                    ),
            decreases self.tasks@.len() - i,
        {
            if self.tasks[i].merchant_id == merchant_id && self.tasks[i].payout_id == payout_id
                && self.tasks[i].attempt_number == attempt_number {
                return Some(i);
            }
            i = i + 1;
        }
        None
    }

    /// Schedules a deferred task; refused when one is already scheduled for
    /// the same attempt.
    pub fn insert_process(&mut self, t: ScheduledTaskRecord) -> (r: Result<(), StoreError>)
        requires
            old(self).wf(),
        ensures
            final(self).wf(),
            final(self).same_except_tasks(*old(self)),
            match r {
                Ok(()) => !old(self).has_task(t.merchant_id, t.payout_id, t.attempt_number)
                    && final(self).tasks@ == old(self).tasks@.push(t),
                Err(e) => e == StoreError::DuplicateKey && old(self).has_task(
                    t.merchant_id,
                    t.payout_id,
                    t.attempt_number,
                ) && *final(self) == *old(self),
            },
    {
        match self.find_task_index(t.merchant_id, t.payout_id, t.attempt_number) {
            Some(_) => Err(StoreError::DuplicateKey),
            None => {
                self.tasks.push(t);
                Ok(())
            },
        }
    }

    fn find_vault_index(&self, merchant_id: u64, token: u64) -> (r: Option<usize>)
        ensures
            match r {
                Some(i) => i < self.vault@.len() && vault_key_matches(
                    self.vault@[i as int],
                    merchant_id,
                    token,
                ),
                None => !self.has_vault_entry(merchant_id, token),
            },
    {
        let mut i: usize = 0;
        while i < self.vault.len()
            invariant
                i <= self.vault@.len(),
                forall|j: int| 0 <= j < i ==> !vault_key_matches(self.vault@[j], merchant_id, token),
            decreases self.vault@.len() - i,
        {
            if self.vault[i].merchant_id == merchant_id && self.vault[i].token == token {
                return Some(i);
            }
            i = i + 1;
        }
        None
    }

    /// Looks tokenized method data up; the returned entry equals the stored one.
    pub fn find_vault_entry(&self, merchant_id: u64, token: u64) -> (r: Option<VaultEntry>)
        ensures
            match r {
                Some(v) => vault_key_matches(v, merchant_id, token) && self.vault@.contains(v),
                None => !self.has_vault_entry(merchant_id, token),
            },
    {
        match self.find_vault_index(merchant_id, token) {
            Some(i) => {
                let v = self.vault[i];
                proof {
                    assert(self.vault@.contains(self.vault@[i as int]));
                }
                Some(v)
            },
            None => None,
        }
    }

    /// Stores tokenized method data, overwriting any entry under the token.
    pub fn upsert_vault_entry(&mut self, v: VaultEntry)
        requires
            old(self).wf(),
        ensures
            final(self).wf(),
            final(self).same_except_vault(*old(self)),
            final(self).vault@.contains(v),
            final(self).has_vault_entry(v.merchant_id, v.token),
    {
        match self.find_vault_index(v.merchant_id, v.token) {
            Some(i) => {
                self.vault.set(i, v);
                proof {
                    assert(final(self).vault@[i as int] == v);
                    assert(final(self).vault@.contains(v));
                }
            },
            None => {
                self.vault.push(v);
                proof {
                    assert(final(self).vault@[final(self).vault@.len() - 1] == v);
                    assert(final(self).vault@.contains(v));
                }
            },
        }
    }

    /// The stored payout under a key (meaningful when `has_payout` holds).
    pub open spec fn spec_payout(self, merchant_id: u64, payout_id: u64) -> PayoutsRecord {
        self.payouts@[choose|i: int|
            0 <= i < self.payouts@.len() && payout_key_matches(
                self.payouts@[i],
                merchant_id,
                payout_id,
            )]
    }

    /// The stored attempt under a key (meaningful when `has_attempt` holds).
    pub open spec fn spec_attempt(
        self,
        merchant_id: u64,
        payout_id: u64,
        attempt_number: u32,
    ) -> PayoutAttemptRecord {
        self.attempts@[choose|i: int|
            0 <= i < self.attempts@.len() && attempt_key_matches(
                self.attempts@[i],
                merchant_id,
                payout_id,
                attempt_number,
            )]
    }

    /// A stored payout with a key is the payout `spec_payout` names.
    pub proof fn lemma_spec_payout(&self, p: PayoutsRecord)
        requires
            self.wf(),
            self.payouts@.contains(p),
        ensures
            self.has_payout(p.merchant_id, p.payout_id),
            self.spec_payout(p.merchant_id, p.payout_id) == p,
    {
        let i = choose|i: int| 0 <= i < self.payouts@.len() && self.payouts@[i] == p;
        assert(payout_key_matches(self.payouts@[i], p.merchant_id, p.payout_id));
        let j = choose|j: int|
            0 <= j < self.payouts@.len() && payout_key_matches(
                self.payouts@[j],
                p.merchant_id,
                p.payout_id,
            );
        assert(i == j);
    }

    /// A stored attempt with a key is the attempt `spec_attempt` names.
    pub proof fn lemma_spec_attempt(&self, a: PayoutAttemptRecord)
        requires
            self.wf(),
            self.attempts@.contains(a),
        ensures
            self.has_attempt(a.merchant_id, a.payout_id, a.attempt_number),
            self.spec_attempt(a.merchant_id, a.payout_id, a.attempt_number) == a,
    {
        let i = choose|i: int| 0 <= i < self.attempts@.len() && self.attempts@[i] == a;
        assert(attempt_key_matches(self.attempts@[i], a.merchant_id, a.payout_id, a.attempt_number));
        let j = choose|j: int|
            0 <= j < self.attempts@.len() && attempt_key_matches(
                self.attempts@[j],
                a.merchant_id,
                a.payout_id,
                a.attempt_number,
            );
        assert(i == j);
    }
}

} // verus!
