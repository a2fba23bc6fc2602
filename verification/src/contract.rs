//! The escrow lifecycle manager: the operations a caller can invoke, each
//! verified against the state machine's rules over a [`Ledger`] environment.

use vstd::prelude::*;

use crate::ledger::Ledger;
use crate::ledger::lemma_transfer_balances;
use crate::ledger::transfer_fits;
use crate::ledger::transfer_map;
use crate::types::Address;
use crate::types::DisputeEvent;
use crate::types::Escrow;
use crate::types::EscrowCreatedEvent;
use crate::types::EscrowError;
use crate::types::EscrowFundedEvent;
use crate::types::EscrowStatus;
use crate::types::LedgerEvent;
use crate::types::PaymentReleasedEvent;
use crate::types::RefundEvent;
use crate::types::RevisionRequestedEvent;

verus! {

/// The manager itself. It holds no state of its own: every operation reads
/// and writes the host environment it is handed.
pub struct EscrowContract;

impl EscrowContract {
    /// Create a new escrow record and return its id.
    ///
    /// A non-positive amount is refused as `InvalidAmount`; a deadline not
    /// strictly in the future as `InvalidDeadline`; either refusal leaves the
    /// environment untouched. On success the next id is minted from the
    /// global counter, a `Created` record is persisted naming the invoking caller
    /// as client, and a creation event is emitted. Any caller may create; no
    /// authorization is checked.
    pub fn initialize(
        env: &mut Ledger,
        freelancer: Address,
        amount: i128,
        deadline: u64,
        metadata: String,
    ) -> (r: Result<u64, EscrowError>)
        requires
            old(env).wf(),
            old(env).escrow_count < u64::MAX,
        ensures
            final (env).wf(),
            amount <= 0 ==> r == Err::<u64, EscrowError>(EscrowError::InvalidAmount) && *final (env)
                == *old(env),
            amount > 0 && deadline <= old(env).timestamp ==> r == Err::<u64, EscrowError>(
                EscrowError::InvalidDeadline,
            ) && *final (env) == *old(env),
            amount > 0 && deadline > old(env).timestamp ==> ({
                let id = (old(env).escrow_count + 1) as u64;
                let rec = Escrow {
                    id,
                    client: old(env).caller,
                    freelancer,
                    amount,
                    token: None,
                    status: EscrowStatus::Created,
                    deadline,
                    created_at: old(env).timestamp,
                    metadata,
                };
                &&& r == Ok::<u64, EscrowError>(id)
                &&& final (env).escrow_count == id
                &&& final (env).escrows@ == old(env).escrows@.push(rec)
                &&& final (env).events@ == old(env).events@.push(
                    LedgerEvent::Created(
                        EscrowCreatedEvent {
                            escrow_id: id,
                            client: old(env).caller,
                            freelancer,
                            amount,
                            deadline,
                        },
                    ),
                )
                &&& final (env).balances@ == old(env).balances@
                &&& final (env).same_surroundings(*old(env))
            }),
    {
        if amount <= 0 {
            return Err(EscrowError::InvalidAmount);
        }
        if deadline <= env.timestamp {
            return Err(EscrowError::InvalidDeadline);
        }
        let new_id: u64 = env.escrow_count + 1;
        let record = Escrow {
            id: new_id,
            client: env.caller,
            freelancer,
            amount,
            token: None,
            status: EscrowStatus::Created,
            deadline,
            created_at: env.timestamp,
            metadata,
        };
        env.escrows.push(record);
        env.escrow_count = new_id;
        env.events.push(
            LedgerEvent::Created(
                EscrowCreatedEvent {
                    escrow_id: new_id,
                    client: env.caller,
                    freelancer,
                    amount,
                    deadline,
                },
            ),
        );
        Ok(new_id)
    }

    /// Mark an escrow as funded.
    ///
    /// The record must exist, the caller must be authorized as its client,
    /// and the record must still be `Created`; otherwise the call is refused
    /// — `EscrowNotFound`, `Unauthorized`, `EscrowAlreadyFunded` in that
    /// order — with no side effect. On success only the status changes, to
    /// `Funded`, and a funding event is emitted. The value moved into
    /// custody is the payment attached to the authorized call itself; the
    /// manager trusts it and does not check it against `amount`.
    pub fn fund(env: &mut Ledger, escrow_id: u64) -> (r: Result<(), EscrowError>)
        requires
            old(env).wf(),
        ensures
            final (env).wf(),
            !old(env).has_escrow(escrow_id) ==> r == Err::<(), EscrowError>(
                EscrowError::EscrowNotFound,
            ) && *final (env) == *old(env),
            old(env).has_escrow(escrow_id) ==> ({
                let e = old(env).record(escrow_id);
                &&& !old(env).authorizes(e.client) ==> r == Err::<(), EscrowError>(
                    EscrowError::Unauthorized,
                ) && *final (env) == *old(env)
                &&& old(env).authorizes(e.client) && e.status != EscrowStatus::Created ==> r
                    == Err::<(), EscrowError>(EscrowError::EscrowAlreadyFunded) && *final (env)
                    == *old(env)
                &&& old(env).authorizes(e.client) && e.status == EscrowStatus::Created ==> {
                    &&& r == Ok::<(), EscrowError>(())
                    &&& final (env).escrows@ == old(env).escrows@.update(
                        escrow_id - 1,
                        e.with_status(EscrowStatus::Funded),
                    )
                    &&& final (env).events@ == old(env).events@.push(
                        LedgerEvent::Funded(
                            EscrowFundedEvent { escrow_id, amount: e.amount },
                        ),
                    )
                    &&& final (env).escrow_count == old(env).escrow_count
                    &&& final (env).balances@ == old(env).balances@
                    &&& final (env).same_surroundings(*old(env))
                }
            }),
    {
        let stored: usize = env.escrows.len();
        if escrow_id == 0 || escrow_id > env.escrow_count {
            return Err(EscrowError::EscrowNotFound);
        }
        assert(escrow_id - 1 < stored);
        let idx: usize = (escrow_id - 1) as usize;
        let client = env.escrows[idx].client;
        if !(env.all_auths_mocked || env.caller == client) {
            return Err(EscrowError::Unauthorized);
        }
        if env.escrows[idx].status != EscrowStatus::Created {
            return Err(EscrowError::EscrowAlreadyFunded);
        }
        let amount: i128 = env.escrows[idx].amount;
        env.escrows[idx].status = EscrowStatus::Funded;
        env.events.push(LedgerEvent::Funded(EscrowFundedEvent { escrow_id, amount }));
        Ok(())
    }

    /// Release a funded escrow's amount from custody to the freelancer.
    ///
    /// The record must exist, the caller must be authorized as its client,
    /// and the record must be `Funded`; otherwise the call is refused —
    /// `EscrowNotFound`, `Unauthorized`, `EscrowNotFunded` in that order —
    /// with no side effect. A transfer that would leave either balance
    /// outside the signed 128-bit range is refused as `Overflow`, also with
    /// no side effect. On success the status becomes `Released`, the amount
    /// moves from the manager's custody to the freelancer, and a release
    /// event is emitted.
    pub fn release_payment(env: &mut Ledger, escrow_id: u64) -> (r: Result<(), EscrowError>)
        requires
            old(env).wf(),
        ensures
            final (env).wf(),
            !old(env).has_escrow(escrow_id) ==> r == Err::<(), EscrowError>(
                EscrowError::EscrowNotFound,
            ) && *final (env) == *old(env),
            old(env).has_escrow(escrow_id) ==> ({
                let e = old(env).record(escrow_id);
                let fits = transfer_fits(
                    old(env).balances@,
                    old(env).contract_address,
                    e.freelancer,
                    e.amount,
                );
                &&& !old(env).authorizes(e.client) ==> r == Err::<(), EscrowError>(
                    EscrowError::Unauthorized,
                ) && *final (env) == *old(env)
                &&& old(env).authorizes(e.client) && e.status != EscrowStatus::Funded ==> r
                    == Err::<(), EscrowError>(EscrowError::EscrowNotFunded) && *final (env)
                    == *old(env)
                &&& old(env).authorizes(e.client) && e.status == EscrowStatus::Funded && !fits
                    ==> r == Err::<(), EscrowError>(EscrowError::Overflow) && *final (env) == *old(env)
                &&& old(env).authorizes(e.client) && e.status == EscrowStatus::Funded && fits
                    ==> {
                    &&& r == Ok::<(), EscrowError>(())
                    &&& final (env).escrows@ == old(env).escrows@.update(
                        escrow_id - 1,
                        e.with_status(EscrowStatus::Released),
                    )
                    &&& final (env).balances@ == transfer_map(
                        old(env).balances@,
                        old(env).contract_address,
                        e.freelancer,
                        e.amount,
                    )
                    &&& final (env).events@ == old(env).events@.push(
                        LedgerEvent::Released(
                            PaymentReleasedEvent {
                                escrow_id,
                                freelancer: e.freelancer,
                                amount: e.amount,
                            },
                        ),
                    )
                    &&& final (env).escrow_count == old(env).escrow_count
                    &&& final (env).same_surroundings(*old(env))
                }
            }),
    {
        let stored: usize = env.escrows.len();
        if escrow_id == 0 || escrow_id > env.escrow_count {
            return Err(EscrowError::EscrowNotFound);
        }
        assert(escrow_id - 1 < stored);
        let idx: usize = (escrow_id - 1) as usize;
        let client = env.escrows[idx].client;
        if !(env.all_auths_mocked || env.caller == client) {
            return Err(EscrowError::Unauthorized);
        }
        if env.escrows[idx].status != EscrowStatus::Funded {
            return Err(EscrowError::EscrowNotFunded);
        }
        let freelancer = env.escrows[idx].freelancer;
        let amount: i128 = env.escrows[idx].amount;
        let custody = env.contract_address;
        match env.move_value(custody, freelancer, amount) {
            Ok(()) => {},
            Err(e) => {
                return Err(e);
            },
        }
        env.escrows[idx].status = EscrowStatus::Released;
        env.events.push(
            LedgerEvent::Released(PaymentReleasedEvent { escrow_id, freelancer, amount }),
        );
        Ok(())
    }

    /// Refund a funded escrow's amount from custody to the client once the
    /// deadline has elapsed.
    ///
    /// The record must exist, the clock must have reached the deadline, and
    /// the record must be `Funded`; otherwise the call is refused —
    /// `EscrowNotFound`, `DeadlineNotPassed`, `EscrowNotFunded` in that
    /// order — with no side effect. The deadline is checked before the
    /// status, so an early call is `DeadlineNotPassed` regardless of status.
    /// A transfer that would leave either balance outside the signed 128-bit
    /// range is refused as `Overflow`, also with no side effect. On success
    /// the status becomes `Refunded`, the amount moves from the manager's
    /// custody back to the client, and a refund event is emitted. No caller
    /// authorization is checked: once the deadline has elapsed anyone may
    /// trigger the refund, so a stalled freelancer cannot block the client's
    /// recovery of funds.
    pub fn refund(env: &mut Ledger, escrow_id: u64) -> (r: Result<(), EscrowError>)
        requires
            old(env).wf(),
        ensures
            final (env).wf(),
            !old(env).has_escrow(escrow_id) ==> r == Err::<(), EscrowError>(
                EscrowError::EscrowNotFound,
            ) && *final (env) == *old(env),
            old(env).has_escrow(escrow_id) ==> ({
                let e = old(env).record(escrow_id);
                let fits = transfer_fits(
                    old(env).balances@,
                    old(env).contract_address,
                    e.client,
                    e.amount,
                );
                &&& old(env).timestamp < e.deadline ==> r == Err::<(), EscrowError>(
                    EscrowError::DeadlineNotPassed,
                ) && *final (env) == *old(env)
                &&& old(env).timestamp >= e.deadline && e.status != EscrowStatus::Funded ==> r
                    == Err::<(), EscrowError>(EscrowError::EscrowNotFunded) && *final (env)
                    == *old(env)
                &&& old(env).timestamp >= e.deadline && e.status == EscrowStatus::Funded && !fits
                    ==> r == Err::<(), EscrowError>(EscrowError::Overflow) && *final (env) == *old(env)
                &&& old(env).timestamp >= e.deadline && e.status == EscrowStatus::Funded && fits
                    ==> {
                    &&& r == Ok::<(), EscrowError>(())
                    &&& final (env).escrows@ == old(env).escrows@.update(
                        escrow_id - 1,
                        e.with_status(EscrowStatus::Refunded),
                    )
                    &&& final (env).balances@ == transfer_map(
                        old(env).balances@,
                        old(env).contract_address,
                        e.client,
                        e.amount,
                    )
                    &&& final (env).events@ == old(env).events@.push(
                        LedgerEvent::Refunded(
                            RefundEvent { escrow_id, client: e.client, amount: e.amount },
                        ),
                    )
                    &&& final (env).escrow_count == old(env).escrow_count
                    &&& final (env).same_surroundings(*old(env))
                }
            }),
    {
        let stored: usize = env.escrows.len();
        if escrow_id == 0 || escrow_id > env.escrow_count {
            return Err(EscrowError::EscrowNotFound);
        }
        assert(escrow_id - 1 < stored);
        let idx: usize = (escrow_id - 1) as usize;
        if env.timestamp < env.escrows[idx].deadline {
            return Err(EscrowError::DeadlineNotPassed);
        }
        if env.escrows[idx].status != EscrowStatus::Funded {
            return Err(EscrowError::EscrowNotFunded);
        }
        let client = env.escrows[idx].client;
        let amount: i128 = env.escrows[idx].amount;
        let custody = env.contract_address;
        match env.move_value(custody, client, amount) {
            Ok(()) => {},
            Err(e) => {
                return Err(e);
            },
        }
        env.escrows[idx].status = EscrowStatus::Refunded;
        env.events.push(LedgerEvent::Refunded(RefundEvent { escrow_id, client, amount }));
        Ok(())
    }

    /// Ask the freelancer for changes. Purely advisory: nothing in the
    /// record changes, only an informational event is emitted for off-chain
    /// tooling to act on.
    ///
    /// The record must exist, the caller must be authorized as its client,
    /// and the record must be `Funded`; otherwise the call is refused —
    /// `EscrowNotFound`, `Unauthorized`, `InvalidStatus` in that order —
    /// with no side effect.
    pub fn request_revision(env: &mut Ledger, escrow_id: u64, note: String) -> (r: Result<
        (),
        EscrowError,
    >)
        requires
            old(env).wf(),
        ensures
            final (env).wf(),
            !old(env).has_escrow(escrow_id) ==> r == Err::<(), EscrowError>(
                EscrowError::EscrowNotFound,
            ) && *final (env) == *old(env),
            old(env).has_escrow(escrow_id) ==> ({
                let e = old(env).record(escrow_id);
                &&& !old(env).authorizes(e.client) ==> r == Err::<(), EscrowError>(
                    EscrowError::Unauthorized,
                ) && *final (env) == *old(env)
                &&& old(env).authorizes(e.client) && e.status != EscrowStatus::Funded ==> r
                    == Err::<(), EscrowError>(EscrowError::InvalidStatus) && *final (env) == *old(env)
                &&& old(env).authorizes(e.client) && e.status == EscrowStatus::Funded ==> {
                    &&& r == Ok::<(), EscrowError>(())
                    &&& final (env).events@ == old(env).events@.push(
                        LedgerEvent::RevisionRequested(
                            RevisionRequestedEvent { escrow_id, note },
                        ),
                    )
                    &&& final (env).escrows@ == old(env).escrows@
                    &&& final (env).escrow_count == old(env).escrow_count
                    &&& final (env).balances@ == old(env).balances@
                    &&& final (env).same_surroundings(*old(env))
                }
            }),
    {
        let stored: usize = env.escrows.len();
        if escrow_id == 0 || escrow_id > env.escrow_count {
            return Err(EscrowError::EscrowNotFound);
        }
        assert(escrow_id - 1 < stored);
        let idx: usize = (escrow_id - 1) as usize;
        let client = env.escrows[idx].client;
        if !(env.all_auths_mocked || env.caller == client) {
            return Err(EscrowError::Unauthorized);
        }
        if env.escrows[idx].status != EscrowStatus::Funded {
            return Err(EscrowError::InvalidStatus);
        }
        env.events.push(LedgerEvent::RevisionRequested(RevisionRequestedEvent { escrow_id, note }));
        Ok(())
    }

    /// Put a dispute on record. Purely a signal for out-of-band arbitration:
    /// nothing in the record changes — in particular the status does not
    /// become `Disputed` — and neither release nor refund is blocked.
    ///
    /// The record must exist and the invoking party must be its client or
    /// its freelancer; otherwise the call is refused — `EscrowNotFound`,
    /// `Unauthorized` — with no side effect. The check is on the caller's
    /// identity itself, not on the authorization capability, so a mocked
    /// authorizer does not widen who may dispute. The record must be
    /// `Funded`, else `InvalidStatus`.
    pub fn raise_dispute(env: &mut Ledger, escrow_id: u64, reason: String) -> (r: Result<
        (),
        EscrowError,
    >)
        requires
            old(env).wf(),
        ensures
            final (env).wf(),
            !old(env).has_escrow(escrow_id) ==> r == Err::<(), EscrowError>(
                EscrowError::EscrowNotFound,
            ) && *final (env) == *old(env),
            old(env).has_escrow(escrow_id) ==> ({
                let e = old(env).record(escrow_id);
                let party_ok = old(env).caller == e.client || old(env).caller == e.freelancer;
                &&& !party_ok ==> r == Err::<(), EscrowError>(EscrowError::Unauthorized)
                    && *final (env) == *old(env)
                &&& party_ok && e.status != EscrowStatus::Funded ==> r == Err::<(), EscrowError>(
                    EscrowError::InvalidStatus,
                ) && *final (env) == *old(env)
                &&& party_ok && e.status == EscrowStatus::Funded ==> {
                    &&& r == Ok::<(), EscrowError>(())
                    &&& final (env).events@ == old(env).events@.push(
                        LedgerEvent::Dispute(DisputeEvent { escrow_id, reason }),
                    )
                    &&& final (env).escrows@ == old(env).escrows@
                    &&& final (env).escrow_count == old(env).escrow_count
                    &&& final (env).balances@ == old(env).balances@
                    &&& final (env).same_surroundings(*old(env))
                }
            }),
    {
        let stored: usize = env.escrows.len();
        if escrow_id == 0 || escrow_id > env.escrow_count {
            return Err(EscrowError::EscrowNotFound);
        }
        assert(escrow_id - 1 < stored);
        let idx: usize = (escrow_id - 1) as usize;
        let client = env.escrows[idx].client;
        let freelancer = env.escrows[idx].freelancer;
        if !(env.caller == client || env.caller == freelancer) {
            return Err(EscrowError::Unauthorized);
        }
        if env.escrows[idx].status != EscrowStatus::Funded {
            return Err(EscrowError::InvalidStatus);
        }
        env.events.push(LedgerEvent::Dispute(DisputeEvent { escrow_id, reason }));
        Ok(())
    }

    /// Read a copy of a stored record, or `EscrowNotFound`.
    pub fn get_escrow(env: &Ledger, escrow_id: u64) -> (r: Result<Escrow, EscrowError>)
        ensures
            !env.has_escrow(escrow_id) ==> r == Err::<Escrow, EscrowError>(
                EscrowError::EscrowNotFound,
            ),
            env.has_escrow(escrow_id) ==> r == Ok::<Escrow, EscrowError>(env.record(escrow_id)),
    {
        let stored: usize = env.escrows.len();
        if escrow_id == 0 || escrow_id > stored as u64 {
            return Err(EscrowError::EscrowNotFound);
        }
        let idx: usize = (escrow_id - 1) as usize;
        Ok(env.escrows[idx].clone())
    }

    /// Read a stored record's current status, or `EscrowNotFound`.
    pub fn get_status(env: &Ledger, escrow_id: u64) -> (r: Result<EscrowStatus, EscrowError>)
        ensures
            !env.has_escrow(escrow_id) ==> r == Err::<EscrowStatus, EscrowError>(
                EscrowError::EscrowNotFound,
            ),
            env.has_escrow(escrow_id) ==> r == Ok::<EscrowStatus, EscrowError>(
                env.record(escrow_id).status,
            ),
    {
        let stored: usize = env.escrows.len();
        if escrow_id == 0 || escrow_id > stored as u64 {
            return Err(EscrowError::EscrowNotFound);
        }
        let idx: usize = (escrow_id - 1) as usize;
        Ok(env.escrows[idx].status)
    }

    /// Read the global counter: the number of escrows ever created, zero if
    /// none was.
    pub fn get_escrow_count(env: &Ledger) -> (r: u64)
        ensures
            r == env.escrow_count,
    {
        env.escrow_count
    }
}

/// A successful release moves value exactly: provided the freelancer is not
/// the manager itself, the freelancer's balance grows by exactly the escrowed
/// amount, the manager's custody shrinks by exactly it, and every other
/// party's balance is untouched. The hypotheses are what `release_payment`
/// ensures on its success path.
pub proof fn lemma_release_moves_value(pre: Ledger, post: Ledger, escrow_id: u64)
    requires
        pre.has_escrow(escrow_id),
        pre.record(escrow_id).freelancer.id != pre.contract_address.id,
        transfer_fits(
            pre.balances@,
            pre.contract_address,
            pre.record(escrow_id).freelancer,
            pre.record(escrow_id).amount,
        ),
        post.balances@ == transfer_map(
            pre.balances@,
            pre.contract_address,
            pre.record(escrow_id).freelancer,
            pre.record(escrow_id).amount,
        ),
    ensures
        post.balance_of(pre.record(escrow_id).freelancer) == pre.balance_of(
            pre.record(escrow_id).freelancer,
        ) + pre.record(escrow_id).amount,
        post.balance_of(pre.contract_address) == pre.balance_of(pre.contract_address)
            - pre.record(escrow_id).amount,
        forall|other: Address|
            other.id != pre.contract_address.id && other.id != pre.record(
                escrow_id,
            ).freelancer.id ==> post.balance_of(other) == pre.balance_of(other),
{
    lemma_transfer_balances(
        pre.balances@,
        pre.contract_address,
        pre.record(escrow_id).freelancer,
        pre.record(escrow_id).amount,
    );
}

/// A successful refund moves value exactly: provided the client is not the
/// manager itself, the client's balance grows by exactly the escrowed amount,
/// the manager's custody shrinks by exactly it, and every other party's
/// balance is untouched. The hypotheses are what `refund` ensures on its
/// success path.
pub proof fn lemma_refund_moves_value(pre: Ledger, post: Ledger, escrow_id: u64)
    requires
        pre.has_escrow(escrow_id),
        pre.record(escrow_id).client.id != pre.contract_address.id,
        transfer_fits(
            pre.balances@,
            pre.contract_address,
            pre.record(escrow_id).client,
            pre.record(escrow_id).amount,
        ),
        post.balances@ == transfer_map(
            pre.balances@,
            pre.contract_address,
            pre.record(escrow_id).client,
            pre.record(escrow_id).amount,
        ),
    ensures
        post.balance_of(pre.record(escrow_id).client) == pre.balance_of(
            pre.record(escrow_id).client,
        ) + pre.record(escrow_id).amount,
        post.balance_of(pre.contract_address) == pre.balance_of(pre.contract_address)
            - pre.record(escrow_id).amount,
        forall|other: Address|
            other.id != pre.contract_address.id && other.id != pre.record(escrow_id).client.id
                ==> post.balance_of(other) == pre.balance_of(other),
{
    lemma_transfer_balances(
        pre.balances@,
        pre.contract_address,
        pre.record(escrow_id).client,
        pre.record(escrow_id).amount,
    );
}

} // verus!
