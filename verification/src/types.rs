//! The data carried by the escrow manager: parties, records, statuses,
//! errors, event payloads and the host store's key scheme.

use vstd::prelude::*;

verus! {

/// A party on the ledger, identified by a numeric handle.
///
/// The host environment knows parties by opaque account identifiers; the
/// manager only ever compares them for equality, so a plain number carries
/// everything the lifecycle rules read.
#[derive(Clone, Copy, Debug, PartialEq, Eq, Structural)]
pub struct Address {
    pub id: u64,
}

/// The lifecycle states of an escrow record.
///
/// `Created` is the initial state; `Released` and `Refunded` are terminal.
/// `Disputed` is reserved: raising a dispute is logged only and never
/// assigns this status in the current rule set.
#[derive(Clone, Copy, Debug, PartialEq, Eq, Structural)]
pub enum EscrowStatus {
    Created,
    Funded,
    Released,
    Refunded,
    Disputed,
}

/// Every way an operation can be refused. Each precondition violation maps
/// to exactly one of these, and a refused operation has no side effect.
///
/// `EscrowAlreadyReleased` is reserved: no current path raises it.
#[derive(Clone, Copy, Debug, PartialEq, Eq, Structural)]
pub enum EscrowError {
    EscrowNotFound,
    Unauthorized,
    InvalidAmount,
    InvalidDeadline,
    EscrowAlreadyFunded,
    EscrowNotFunded,
    EscrowAlreadyReleased,
    DeadlineNotPassed,
    InvalidStatus,
    Overflow,
}

/// One escrow record. Every field but `status` is fixed at creation.
#[derive(Debug, PartialEq, Eq)]
pub struct Escrow {
    /// Assigned sequentially starting at 1.
    pub id: u64,
    /// The payer; sole authority for funding and releasing.
    pub client: Address,
    /// The payee upon release.
    pub freelancer: Address,
    /// Fixed at creation; always strictly positive in a stored record.
    pub amount: i128,
    /// `None` denotes the ledger's native asset.
    pub token: Option<Address>,
    /// The only mutable field.
    pub status: EscrowStatus,
    /// Timestamp after which a funded record becomes refundable by anyone.
    pub deadline: u64,
    /// Set once at creation; always strictly below `deadline`.
    pub created_at: u64,
    /// Free-form text, informational only.
    pub metadata: String,
}

impl Escrow {
    /// The same record with only the status replaced.
    pub open spec fn with_status(self, status: EscrowStatus) -> Escrow {
        Escrow {
            id: self.id,
            client: self.client,
            freelancer: self.freelancer,
            amount: self.amount,
            token: self.token,
            status,
            deadline: self.deadline,
            created_at: self.created_at,
            metadata: self.metadata,
        }
    }
}

impl Clone for Escrow {
    fn clone(&self) -> (r: Self)
        ensures
            r == *self,
    {
        Escrow {
            id: self.id,
            client: self.client,
            freelancer: self.freelancer,
            amount: self.amount,
            token: self.token,
            status: self.status,
            deadline: self.deadline,
            created_at: self.created_at,
            metadata: self.metadata.clone(),
        }
    }
}

/// Payload of the event emitted by a successful `initialize`.
#[derive(Clone, Copy, Debug, PartialEq, Eq, Structural)]
pub struct EscrowCreatedEvent {
    pub escrow_id: u64,
    pub client: Address,
    pub freelancer: Address,
    pub amount: i128,
    pub deadline: u64,
}

/// Payload of the event emitted by a successful `fund`.
#[derive(Clone, Copy, Debug, PartialEq, Eq, Structural)]
pub struct EscrowFundedEvent {
    pub escrow_id: u64,
    pub amount: i128,
}

/// Payload of the event emitted by a successful `release_payment`.
#[derive(Clone, Copy, Debug, PartialEq, Eq, Structural)]
pub struct PaymentReleasedEvent {
    pub escrow_id: u64,
    pub freelancer: Address,
    pub amount: i128,
}

/// Payload of the event emitted by a successful `refund`.
#[derive(Clone, Copy, Debug, PartialEq, Eq, Structural)]
pub struct RefundEvent {
    pub escrow_id: u64,
    pub client: Address,
    pub amount: i128,
}

/// Payload of the event emitted by a successful `raise_dispute`.
#[derive(Debug)]
pub struct DisputeEvent {
    pub escrow_id: u64,
    pub reason: String,
}

/// Payload of the event emitted by a successful `request_revision`.
#[derive(Debug)]
pub struct RevisionRequestedEvent {
    pub escrow_id: u64,
    pub note: String,
}

/// One notification handed to the host's append-only event sink.
#[derive(Debug)]
pub enum LedgerEvent {
    Created(EscrowCreatedEvent),
    Funded(EscrowFundedEvent),
    Released(PaymentReleasedEvent),
    Refunded(RefundEvent),
    Dispute(DisputeEvent),
    RevisionRequested(RevisionRequestedEvent),
}

/// The key scheme under which the host's durable store files the manager's
/// state: the global counter, one record per minted id, and a reserved
/// per-user index that no current operation writes.
#[derive(Clone, Copy, Debug, PartialEq, Eq, Structural)]
pub enum StorageKey {
    EscrowCount,
    Escrow(u64),
    UserEscrows(Address),
}

} // verus!
