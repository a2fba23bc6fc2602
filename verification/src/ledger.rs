//! A model of the host ledger environment the escrow manager runs on: the
//! clock, the durable record store, the caller-authorization capability, the
//! per-party balance ledger and the append-only event sink.
//!
//! The host serializes calls and commits each operation atomically, so one
//! [`Ledger`] value carries the whole environment state between operations.

use vstd::prelude::*;

use std::collections::HashMap;

use crate::types::Address;
use crate::types::Escrow;
use crate::types::EscrowError;
use crate::types::LedgerEvent;

verus! {

broadcast use vstd::std_specs::hash::group_hash_axioms;

/// The balance a ledger table assigns to a party: its entry, or zero for a
/// party the table has never touched.
pub open spec fn spec_balance(table: Map<u64, i128>, who: Address) -> int {
    if table.contains_key(who.id) {
        table[who.id] as int
    } else {
        0
    }
}

/// Whether moving `amount` from `from` to `to` stays within the signed
/// 128-bit range of both entries, debit applied first.
pub open spec fn transfer_fits(
    table: Map<u64, i128>,
    from: Address,
    to: Address,
    amount: i128,
) -> bool {
    let debited = spec_balance(table, from) - amount;
    &&& i128::MIN <= debited <= i128::MAX
    &&& {
        let mid = table.insert(from.id, debited as i128);
        let credited = spec_balance(mid, to) + amount;
        i128::MIN <= credited <= i128::MAX
    }
}

/// The balance table after moving `amount` from `from` to `to`, debit
/// applied first. Meaningful only when `transfer_fits` holds.
pub open spec fn transfer_map(
    table: Map<u64, i128>,
    from: Address,
    to: Address,
    amount: i128,
) -> Map<u64, i128> {
    let mid = table.insert(from.id, (spec_balance(table, from) - amount) as i128);
    mid.insert(to.id, (spec_balance(mid, to) + amount) as i128)
}

/// A transfer moves value and nothing else: the sender's balance shrinks by
/// exactly the amount moved, the receiver's grows by exactly it, and every
/// other party's balance is untouched. A transfer from a party to itself
/// leaves even that party's balance unchanged.
pub proof fn lemma_transfer_balances(
    table: Map<u64, i128>,
    from: Address,
    to: Address,
    amount: i128,
)
    requires
        transfer_fits(table, from, to, amount),
    ensures
        from.id != to.id ==> spec_balance(transfer_map(table, from, to, amount), from)
            == spec_balance(table, from) - amount,
        from.id != to.id ==> spec_balance(transfer_map(table, from, to, amount), to)
            == spec_balance(table, to) + amount,
        from.id == to.id ==> spec_balance(transfer_map(table, from, to, amount), to)
            == spec_balance(table, to),
        forall|other: Address|
            other.id != from.id && other.id != to.id ==> spec_balance(
                transfer_map(table, from, to, amount),
                other,
            ) == spec_balance(table, other),
{
}

/// The host environment as the escrow manager sees it.
pub struct Ledger {
    /// The clock: the current logical time.
    pub timestamp: u64,
    /// The manager's own identity on the ledger.
    pub contract_address: Address,
    /// The party invoking the current operation.
    pub caller: Address,
    /// The test fake of the authorization capability: when set, every
    /// authorization check passes regardless of the caller.
    pub all_auths_mocked: bool,
    /// The persisted global counter: the id of the most recently created
    /// escrow, zero before any creation.
    pub escrow_count: u64,
    /// The persisted records; the record with id `n` sits at index `n - 1`.
    pub escrows: Vec<Escrow>,
    /// The balance ledger, keyed by party identifier.
    pub balances: HashMap<u64, i128>,
    /// The append-only event sink.
    pub events: Vec<LedgerEvent>,
}

impl Ledger {
    /// Well-formedness: the counter counts the stored records, ids are dense
    /// and strictly increasing from 1, and every stored record has a positive
    /// amount and a deadline strictly after its creation time.
    pub open spec fn wf(self) -> bool {
        &&& self.escrow_count as int == self.escrows@.len()
        &&& forall|i: int|
            0 <= i < self.escrows@.len() ==> {
                let e = #[trigger] self.escrows@[i];
                &&& e.id == i + 1
                &&& e.amount > 0
                &&& e.deadline > e.created_at
            }
    }

    /// Whether the authorization capability lets the current call act as
    /// `party`: the actual caller matches, or all auths are mocked.
    pub open spec fn authorizes(self, party: Address) -> bool {
        self.all_auths_mocked || self.caller == party
    }

    /// Whether a record with this id is stored.
    pub open spec fn has_escrow(self, id: u64) -> bool {
        1 <= id <= self.escrows@.len()
    }

    /// The stored record with this id. Meaningful only when `has_escrow`.
    pub open spec fn record(self, id: u64) -> Escrow {
        self.escrows@[id - 1]
    }

    /// The balance the ledger assigns to `who`.
    pub open spec fn balance_of(self, who: Address) -> int {
        spec_balance(self.balances@, who)
    }

    /// Clock, identities and the authorization fake agree with `other`.
    pub open spec fn same_surroundings(self, other: Ledger) -> bool {
        &&& self.timestamp == other.timestamp
        &&& self.contract_address == other.contract_address
        &&& self.caller == other.caller
        &&& self.all_auths_mocked == other.all_auths_mocked
    }

    /// A fresh environment: no records, no balances, no events, the clock at
    /// `timestamp`, and real authorization (no mocking).
    pub fn new(contract_address: Address, caller: Address, timestamp: u64) -> (l: Ledger)
        ensures
            l.wf(),
            l.timestamp == timestamp,
            l.contract_address == contract_address,
            l.caller == caller,
            !l.all_auths_mocked,
            l.escrow_count == 0,
            l.escrows@.len() == 0,
            l.events@.len() == 0,
            l.balances@ == Map::<u64, i128>::empty(),
            forall|a: Address| l.balance_of(a) == 0,
    {
        Ledger {
            timestamp,
            contract_address,
            caller,
            all_auths_mocked: false,
            escrow_count: 0,
            escrows: Vec::new(),
            balances: HashMap::new(),
            events: Vec::new(),
        }
    }

    /// Make every authorization check pass, as a test harness does.
    pub fn mock_all_auths(&mut self)
        ensures
            final (self).all_auths_mocked,
            final (self).timestamp == old(self).timestamp,
            final (self).contract_address == old(self).contract_address,
            final (self).caller == old(self).caller,
            final (self).escrow_count == old(self).escrow_count,
            final (self).escrows@ == old(self).escrows@,
            final (self).balances@ == old(self).balances@,
            final (self).events@ == old(self).events@,
    {
        self.all_auths_mocked = true;
    }

    /// Move the clock to `timestamp`.
    pub fn set_timestamp(&mut self, timestamp: u64)
        ensures
            final (self).timestamp == timestamp,
            final (self).contract_address == old(self).contract_address,
            final (self).caller == old(self).caller,
            final (self).all_auths_mocked == old(self).all_auths_mocked,
            final (self).escrow_count == old(self).escrow_count,
            final (self).escrows@ == old(self).escrows@,
            final (self).balances@ == old(self).balances@,
            final (self).events@ == old(self).events@,
    {
        self.timestamp = timestamp;
    }

    /// Let the next operation be invoked by `caller`.
    pub fn set_caller(&mut self, caller: Address)
        ensures
            final (self).caller == caller,
            final (self).timestamp == old(self).timestamp,
            final (self).contract_address == old(self).contract_address,
            final (self).all_auths_mocked == old(self).all_auths_mocked,
            final (self).escrow_count == old(self).escrow_count,
            final (self).escrows@ == old(self).escrows@,
            final (self).balances@ == old(self).balances@,
            final (self).events@ == old(self).events@,
    {
        self.caller = caller;
    }

    /// Endow `who` with a balance, as value arriving from outside the
    /// manager's custody does.
    pub fn set_balance(&mut self, who: Address, amount: i128)
        ensures
            final (self).balances@ == old(self).balances@.insert(who.id, amount),
            final (self).timestamp == old(self).timestamp,
            final (self).contract_address == old(self).contract_address,
            final (self).caller == old(self).caller,
            final (self).all_auths_mocked == old(self).all_auths_mocked,
            final (self).escrow_count == old(self).escrow_count,
            final (self).escrows@ == old(self).escrows@,
            final (self).events@ == old(self).events@,
    {
        self.balances.insert(who.id, amount);
    }

    /// Read the balance the ledger assigns to `who`.
    pub fn balance(&self, who: Address) -> (r: i128)
        ensures
            r as int == self.balance_of(who),
    {
        match self.balances.get(&who.id) {
            Some(v) => *v,
            None => 0,
        }
    }

    /// Move `amount` from `from` to `to`, all or nothing: either both
    /// entries are updated, or the whole environment is untouched and the
    /// move is refused as an `Overflow`.
    pub fn move_value(&mut self, from: Address, to: Address, amount: i128) -> (r: Result<
        (),
        EscrowError,
    >)
        ensures
            transfer_fits(old(self).balances@, from, to, amount) ==> {
                &&& r == Ok::<(), EscrowError>(())
                &&& final (self).balances@ == transfer_map(old(self).balances@, from, to, amount)
            },
            !transfer_fits(old(self).balances@, from, to, amount) ==> {
                &&& r == Err::<(), EscrowError>(EscrowError::Overflow)
                &&& *final (self) == *old(self)
            },
            final (self).timestamp == old(self).timestamp,
            final (self).contract_address == old(self).contract_address,
            final (self).caller == old(self).caller,
            final (self).all_auths_mocked == old(self).all_auths_mocked,
            final (self).escrow_count == old(self).escrow_count,
            final (self).escrows@ == old(self).escrows@,
            final (self).events@ == old(self).events@,
    {
        let from_balance: i128 = self.balance(from);
        let debited: i128 = match from_balance.checked_sub(amount) {
            Some(v) => v,
            None => {
                return Err(EscrowError::Overflow);
            },
        };
        let to_balance_mid: i128 = if to.id == from.id {
            debited
        } else {
            self.balance(to)
        };
        let credited: i128 = match to_balance_mid.checked_add(amount) {
            Some(v) => v,
            None => {
                return Err(EscrowError::Overflow);
            },
        };
        self.balances.insert(from.id, debited);
        self.balances.insert(to.id, credited);
        Ok(())
    }
}

/// Ids are dense and strictly increasing: in a well-formed environment the
/// global counter equals the id of the most recently created escrow, and
/// every id from 1 up to the counter has a stored record carrying exactly
/// that id. So the Nth successful creation mints id N, and the counter reads
/// N immediately after.
pub proof fn lemma_escrow_ids_dense(env: Ledger)
    requires
        env.wf(),
    ensures
        env.escrow_count as int == env.escrows@.len(),
        forall|id: u64|
            1 <= id <= env.escrow_count ==> env.has_escrow(id) && (#[trigger] env.record(id)).id
                == id,
{
    assert forall|id: u64| 1 <= id <= env.escrow_count implies env.has_escrow(id) && (
    #[trigger] env.record(id)).id == id by {
        assert(env.escrows@[id - 1].id == id - 1 + 1);
    }
}

/// Every stored record keeps the creation-time invariants for its entire
/// lifetime: its amount is strictly positive, its deadline lies strictly
/// after its creation time, and it sits under its own id.
pub proof fn lemma_stored_record_valid(env: Ledger, id: u64)
    requires
        env.wf(),
        env.has_escrow(id),
    ensures
        env.record(id).id == id,
        env.record(id).amount > 0,
        env.record(id).deadline > env.record(id).created_at,
{
    assert(env.escrows@[id - 1].id == id - 1 + 1);
}

} // verus!
