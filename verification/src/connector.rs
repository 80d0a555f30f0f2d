//! The connector adapter boundary: the operations a payout connector
//! performs, the data an operation returns, and the gateway through which a
//! pass talks to the connector. Outcomes enter the gateway as data, in the
//! order the connector will answer, so the orchestration is verified for
//! every possible connector behaviour.

use vstd::prelude::*;

use crate::status::PayoutStatus;
use crate::types::ConnectorName;

verus! {

/// The payout operations of the connector protocol.
#[derive(Clone, Copy, Debug, PartialEq, Eq, Structural)]
pub enum PayoutOperation {
    Eligibility,
    RecipientCreate,
    RecipientAccountCreate,
    Create,
    Cancel,
    Fulfill,
    Sync,
    Quote,
}

/// What a connector declares it can do for the payout being processed.
#[derive(Clone, Copy, Debug, PartialEq, Eq, Structural)]
pub struct ConnectorCapabilities {
    /// The connector can pre-check payout-method eligibility.
    pub eligibility: bool,
    /// The connector requires/creates a recipient before disbursing.
    pub recipient_create: bool,
    /// Creation and disbursement happen in one step, with no separate
    /// connector creation call.
    pub instant_payout: bool,
    /// The connector creates a disbursement account for a recipient.
    pub vendor_disburse_account_create: bool,
    /// A quote operation must precede the creation call.
    pub quote_required: bool,
}

/// A connector chosen for a pass, with its declared capabilities.
#[derive(Clone, Copy, Debug, PartialEq, Eq, Structural)]
pub struct ConnectorData {
    pub connector_name: ConnectorName,
    pub capabilities: ConnectorCapabilities,
    pub merchant_connector_id: Option<u64>,
}

/// Payload of a successful connector response.
#[derive(Debug)]
pub struct ConnectorResponseData {
    /// Status the connector assigned; when absent the current status is kept.
    pub status: Option<PayoutStatus>,
    /// Identifier the connector assigned to the payout, recipient or quote.
    pub connector_payout_id: Option<String>,
    /// Outcome of an eligibility check, when the operation carries one.
    pub payout_eligible: Option<bool>,
    /// Recipient creation only: the connector provisions the vendor account
    /// asynchronously, so a deferred task must pick the payout up later.
    pub should_add_next_step_to_process_tracker: bool,
    /// Error details a retrieval answer may carry for a failed payout.
    pub error_code: Option<String>,
    /// See `error_code`.
    pub error_message: Option<String>,
}

/// A connector-level failure: transport or protocol error, with the
/// connector's own code and message.
#[derive(Debug)]
pub struct ConnectorErrorResponse {
    pub code: String,
    pub message: String,
}

/// One connector answer.
#[derive(Debug)]
pub enum ConnectorOutcome {
    Success(ConnectorResponseData),
    Failure(ConnectorErrorResponse),
}

/// Holds for the failure the gateway reports when no further outcome is
/// queued, i.e. the connector could not be reached at all.
pub open spec fn spec_unreachable_failure(r: ConnectorOutcome) -> bool {
    match r {
        ConnectorOutcome::Failure(e) => e.code@ == "CONNECTOR_UNREACHABLE"@ && e.message@
            == "no response from connector"@,
        ConnectorOutcome::Success(_) => false,
    }
}

/// The boundary through which a pass executes connector operations. The
/// queued outcomes are consumed front to back; every dispatched operation is
/// appended to the log.
#[derive(Debug)]
pub struct ConnectorGateway {
    /// Outcomes the connector will return, in dispatch order.
    pub outcomes: Vec<ConnectorOutcome>,
    /// Operations dispatched so far, oldest first.
    pub log: Vec<PayoutOperation>,
}

impl ConnectorGateway {
    /// A gateway that will answer with the given outcomes.
    pub fn new(outcomes: Vec<ConnectorOutcome>) -> (r: Self)
        ensures
            r.outcomes == outcomes,
            r.log@.len() == 0,
    {
        ConnectorGateway { outcomes, log: Vec::new() }
    }

    /// Executes one connector operation: logs it and hands back the next
    /// queued outcome, or an unreachable-connector failure when none is left.
    pub fn dispatch(&mut self, op: PayoutOperation) -> (r: ConnectorOutcome)
        ensures
            final(self).log@ == old(self).log@.push(op),
            old(self).outcomes@.len() > 0 ==> r == old(self).outcomes@[0] && final(self).outcomes@
                == old(self).outcomes@.drop_first(),
            old(self).outcomes@.len() == 0 ==> spec_unreachable_failure(r)
                && final(self).outcomes@ == old(self).outcomes@,
    {
        self.log.push(op);
        if self.outcomes.len() > 0 {
            let out = self.outcomes.remove(0);
            proof {
                assert(final(self).outcomes@ =~= old(self).outcomes@.drop_first());
            }
            out
        } else {
            ConnectorOutcome::Failure(
                ConnectorErrorResponse {
                    code: "CONNECTOR_UNREACHABLE".to_owned(),
                    message: "no response from connector".to_owned(),
                },
            )
        }
    }
}

/// The operations the gateway performed since a previous point.
pub open spec fn ops_since(before: ConnectorGateway, after: ConnectorGateway) -> Seq<
    PayoutOperation,
> {
    after.log@.skip(before.log@.len() as int)
}

/// The gateway log only ever grows.
pub open spec fn log_extends(before: ConnectorGateway, after: ConnectorGateway) -> bool {
    after.log@.len() >= before.log@.len() && after.log@.take(before.log@.len() as int)
        == before.log@
}

/// How the connector candidates of a pass are to be called.
pub enum ConnectorCallType {
    /// Exactly one connector; no failover.
    PreDetermined(ConnectorData),
    /// An ordered candidate list; the head is executed, and a retryable
    /// failure may escalate to the candidates behind it, in order.
    Retryable(Vec<ConnectorData>),
    /// Multi-connector session display: rejected for payouts.
    SessionMultiple,
}

/// A capability registry entry: one connector and what it can do.
#[derive(Clone, Copy, Debug, PartialEq, Eq, Structural)]
pub struct RegistryEntry {
    pub name: ConnectorName,
    pub capabilities: ConnectorCapabilities,
    pub merchant_connector_id: Option<u64>,
}

/// The capability-keyed connector registry: populated at startup, looked up
/// by connector name when a pass resolves its routing.
pub struct ConnectorRegistry {
    pub entries: Vec<RegistryEntry>,
}

impl ConnectorRegistry {
    /// At most one entry per connector name.
    pub open spec fn wf(self) -> bool {
        forall|i: int, j: int|
            0 <= i < self.entries@.len() && 0 <= j < self.entries@.len() && i != j
                ==> self.entries@[i].name != self.entries@[j].name
    }

    pub open spec fn has_entry(self, name: ConnectorName) -> bool {
        exists|i: int| 0 <= i < self.entries@.len() && self.entries@[i].name == name
    }

    pub fn new() -> (r: Self)
        ensures
            r.wf(),
            r.entries@.len() == 0,
    {
        ConnectorRegistry { entries: Vec::new() }
    }

    /// Registers a connector; refused when the name is already registered.
    pub fn register(&mut self, entry: RegistryEntry) -> (r: bool)
        requires
            old(self).wf(),
        ensures
            final(self).wf(),
            r ==> !old(self).has_entry(entry.name) && final(self).entries@ == old(
                self,
            ).entries@.push(entry),
            !r ==> old(self).has_entry(entry.name) && *final(self) == *old(self),
    {
        let mut i: usize = 0;
        while i < self.entries.len()
            invariant
                *self == *old(self),
                old(self).wf(),
                i <= self.entries@.len(),
                forall|j: int| 0 <= j < i ==> self.entries@[j].name != entry.name,
            decreases self.entries@.len() - i,
        {
            if self.entries[i].name == entry.name {
                return false;
            }
            i = i + 1;
        }
        self.entries.push(entry);
        true
    }

    /// Resolves a connector name to the connector data a pass will use.
    pub fn lookup(&self, name: ConnectorName) -> (r: Option<ConnectorData>)
        ensures
            match r {
                Some(d) => d.connector_name == name && exists|i: int|
                    0 <= i < self.entries@.len() && self.entries@[i].name == name
                        && self.entries@[i].capabilities == d.capabilities
                        && self.entries@[i].merchant_connector_id == d.merchant_connector_id,
                None => !self.has_entry(name),
            },
    {
        let mut i: usize = 0;
        while i < self.entries.len()
            invariant
                i <= self.entries@.len(),
                forall|j: int| 0 <= j < i ==> self.entries@[j].name != name,
            decreases self.entries@.len() - i,
        {
            if self.entries[i].name == name {
                let e = self.entries[i];
                return Some(
                    ConnectorData {
                        connector_name: e.name,
                        capabilities: e.capabilities,
                        merchant_connector_id: e.merchant_connector_id,
                    },
                );
            }
            i = i + 1;
        }
        None
    }
}

impl ConnectorRegistry {
    /// The capabilities registered under a name (meaningful when `has_entry`
    /// holds).
    pub open spec fn spec_caps_of(self, name: ConnectorName) -> ConnectorCapabilities {
        self.entries@[choose|i: int|
            0 <= i < self.entries@.len() && self.entries@[i].name == name].capabilities
    }

    /// A registered entry carries the capabilities `spec_caps_of` names.
    pub proof fn lemma_spec_caps_of(&self, i: int)
        requires
            self.wf(),
            0 <= i < self.entries@.len(),
        ensures
            self.has_entry(self.entries@[i].name),
            self.spec_caps_of(self.entries@[i].name) == self.entries@[i].capabilities,
    {
        let name = self.entries@[i].name;
        let j = choose|j: int| 0 <= j < self.entries@.len() && self.entries@[j].name == name;
        assert(i == j);
    }
}

/// An ordered queue of connector candidates for one pass.
pub struct ConnectorQueue {
    pub items: Vec<ConnectorData>,
    pub next: usize,
}

impl ConnectorQueue {
    pub open spec fn wf(self) -> bool {
        self.next <= self.items@.len()
    }

    /// The candidates not yet handed out, in order.
    pub open spec fn remaining(self) -> Seq<ConnectorData> {
        self.items@.skip(self.next as int)
    }

    pub fn new(items: Vec<ConnectorData>) -> (r: Self)
        ensures
            r.wf(),
            r.remaining() == items@,
    {
        let r = ConnectorQueue { items, next: 0 };
        proof {
            assert(r.remaining() =~= r.items@);
        }
        r
    }

    /// Hands out the next candidate, in the order routing produced them.
    pub fn next_connector(&mut self) -> (r: Option<ConnectorData>)
        requires
            old(self).wf(),
        ensures
            final(self).wf(),
            old(self).remaining().len() > 0 ==> r == Some(old(self).remaining()[0])
                && final(self).remaining() == old(self).remaining().drop_first(),
            old(self).remaining().len() == 0 ==> r is None && final(self).remaining()
                == old(self).remaining(),
    {
        if self.next < self.items.len() {
            let d = self.items[self.next];
            self.next = self.next + 1;
            proof {
                assert(final(self).remaining() =~= old(self).remaining().drop_first());
            }
            Some(d)
        } else {
            proof {
                assert(final(self).remaining() =~= old(self).remaining());
            }
            None
        }
    }
}

} // verus!
