//! Per-client account state and the rules for applying one transaction to
//! it. Balances are exact decimals; after every application the equation
//! `available + held == total` holds.

use vstd::prelude::*;

use std::collections::HashMap;

use crate::amount::{can_add, can_sub, spec_zero, Amount};
use crate::transaction::{Transaction, TransactionType};

verus! {

broadcast use vstd::std_specs::hash::group_hash_axioms;

/// The balances of one client's account.
#[derive(Debug, Copy, Clone)]
pub struct ClientAccount {
    pub client: u16,
    pub available: Amount,
    pub held: Amount,
    pub total: Amount,
    pub locked: bool,
}

/// The mathematical state of an account: each balance as its denoted value.
pub struct AccountView {
    pub client: u16,
    pub available: int,
    pub held: int,
    pub total: int,
    pub locked: bool,
}

impl View for ClientAccount {
    type V = AccountView;

    open spec fn view(&self) -> AccountView {
        AccountView {
            client: self.client,
            available: self.available@,
            held: self.held@,
            total: self.total@,
            locked: self.locked,
        }
    }
}

/// Every transaction stored in a lookup map is well-formed.
pub open spec fn tx_map_wf(m: Map<u32, Transaction>) -> bool {
    forall|k: u32| #[trigger] m.contains_key(k) ==> m[k].wf()
}

/// The amount a referencing transaction (dispute, resolve, chargeback)
/// resolves to: the amount of the retained transaction with the referenced
/// id, provided that transaction belongs to the same client. Anything else
/// is an unresolved reference.
pub open spec fn spec_referenced_amount(t: Transaction, txs: Map<u32, Transaction>) -> Option<
    Amount,
> {
    if txs.contains_key(t.tx) && txs[t.tx].client == t.client {
        txs[t.tx].amount
    } else {
        None
    }
}

/// What one transaction does to an account's balances. Deposits and
/// withdrawals with a missing amount, and referencing transactions whose
/// reference does not resolve, leave the account unchanged.
pub open spec fn spec_apply(a: AccountView, t: Transaction, txs: Map<u32, Transaction>) -> AccountView {
    match t.kind {
        TransactionType::Deposit => match t.amount {
            Some(x) => AccountView { available: a.available + x@, total: a.total + x@, ..a },
            None => a,
        },
        TransactionType::Withdrawal => match t.amount {
            Some(x) => AccountView { available: a.available - x@, total: a.total - x@, ..a },
            None => a,
        },
        TransactionType::Dispute => match spec_referenced_amount(t, txs) {
            Some(x) => AccountView { available: a.available - x@, held: a.held + x@, ..a },
            None => a,
        },
        TransactionType::Resolve => match spec_referenced_amount(t, txs) {
            Some(x) => AccountView { available: a.available + x@, held: a.held - x@, ..a },
            None => a,
        },
        TransactionType::Chargeback => match spec_referenced_amount(t, txs) {
            Some(x) => AccountView { held: a.held - x@, total: a.total - x@, locked: true, ..a },
            None => a,
        },
    }
}

/// Whether the transaction leaves any account it is applied to unchanged:
/// a deposit or withdrawal with a missing amount, or a referencing
/// transaction whose reference does not resolve.
pub open spec fn spec_is_no_op(t: Transaction, txs: Map<u32, Transaction>) -> bool {
    match t.kind {
        TransactionType::Deposit => t.amount is None,
        TransactionType::Withdrawal => t.amount is None,
        TransactionType::Dispute => spec_referenced_amount(t, txs) is None,
        TransactionType::Resolve => spec_referenced_amount(t, txs) is None,
        TransactionType::Chargeback => spec_referenced_amount(t, txs) is None,
    }
}

/// Whether every balance the transaction would produce is exactly
/// representable. Callers establish this before applying; on a violation
/// the run is to be aborted, as for any internal-consistency fault.
pub open spec fn apply_fits(a: ClientAccount, t: Transaction, txs: Map<u32, Transaction>) -> bool {
    match t.kind {
        TransactionType::Deposit => (t.amount matches Some(x) ==> can_add(a.available, x)
            && can_add(a.total, x)),
        TransactionType::Withdrawal => (t.amount matches Some(x) ==> can_sub(a.available, x)
            && can_sub(a.total, x)),
        TransactionType::Dispute => (spec_referenced_amount(t, txs) matches Some(x) ==> can_sub(
            a.available,
            x,
        ) && can_add(a.held, x)),
        TransactionType::Resolve => (spec_referenced_amount(t, txs) matches Some(x) ==> can_add(
            a.available,
            x,
        ) && can_sub(a.held, x)),
        TransactionType::Chargeback => (spec_referenced_amount(t, txs) matches Some(x) ==> can_sub(
            a.held,
            x,
        ) && can_sub(a.total, x)),
    }
}

/// A fresh account for `client`, as a value: all balances zero, unlocked.
pub open spec fn spec_new_account(client: u16) -> ClientAccount {
    ClientAccount {
        client,
        available: spec_zero(),
        held: spec_zero(),
        total: spec_zero(),
        locked: false,
    }
}

/// Looks the referenced transaction up among the retained ones; yields its
/// amount when it exists and belongs to the referencing client.
fn referenced_transaction_amount(
    transaction: &Transaction,
    transactions: &HashMap<u32, Transaction>,
) -> (r: Option<Amount>)
    ensures
        r == spec_referenced_amount(*transaction, transactions@),
        tx_map_wf(transactions@) ==> (r matches Some(x) ==> x.inv()),
{
    match transactions.get(&transaction.tx) {
        Some(referenced) => {
            if transaction.client == referenced.client {
                referenced.amount
            } else {
                None
            }
        },
        None => None,
    }
}

impl ClientAccount {
    /// Well-formedness: the balances are representable and satisfy the
    /// account equation `available + held == total`.
    pub open spec fn wf(self) -> bool {
        &&& self.available.inv()
        &&& self.held.inv()
        &&& self.total.inv()
        &&& self.available@ + self.held@ == self.total@
    }

    /// A fresh account for `client`: all balances zero, unlocked.
    pub fn new(client: u16) -> (r: ClientAccount)
        ensures
            r.wf(),
            r == spec_new_account(client),
            r@ == (AccountView { client, available: 0, held: 0, total: 0, locked: false }),
    {
        ClientAccount {
            client,
            available: Amount::zero(),
            held: Amount::zero(),
            total: Amount::zero(),
            locked: false,
        }
    }

    /// Applies one transaction of this client to the account.
    ///
    /// A caller that routes a transaction of another client here has a bug;
    /// that input is excluded rather than handled. The resulting state is
    /// exactly [`spec_apply`] of the old one, and the account equation holds
    /// afterwards.
    pub fn combine(
        &mut self,
        transaction: &Transaction,
        transactions: &HashMap<u32, Transaction>,
    )
        requires
            old(self).wf(),
            transaction.client == old(self).client,
            transaction.wf(),
            tx_map_wf(transactions@),
            apply_fits(*old(self), *transaction, transactions@),
        ensures
            final(self).wf(),
            final(self)@ == spec_apply(old(self)@, *transaction, transactions@),
            spec_is_no_op(*transaction, transactions@) ==> *final(self) == *old(self),
    {
        match transaction.kind {
            TransactionType::Deposit => self.deposit(transaction.amount),
            TransactionType::Withdrawal => self.withdrawal(transaction.amount),
            TransactionType::Dispute => self.dispute(transaction, transactions),
            TransactionType::Resolve => self.resolve(transaction, transactions),
            TransactionType::Chargeback => self.chargeback(transaction, transactions),
        }
    }

    /// Whether applying the transaction would keep every balance
    /// representable: the executable form of [`apply_fits`].
    pub fn combine_fits(
        &self,
        transaction: &Transaction,
        transactions: &HashMap<u32, Transaction>,
    ) -> (b: bool)
        requires
            self.wf(),
            transaction.wf(),
            tx_map_wf(transactions@),
        ensures
            b == apply_fits(*self, *transaction, transactions@),
    {
        match transaction.kind {
            TransactionType::Deposit => match transaction.amount {
                Some(x) => self.available.checked_add(x).is_some() && self.total.checked_add(
                    x,
                ).is_some(),
                None => true,
            },
            TransactionType::Withdrawal => match transaction.amount {
                Some(x) => self.available.checked_sub(x).is_some() && self.total.checked_sub(
                    x,
                ).is_some(),
                None => true,
            },
            TransactionType::Dispute => match referenced_transaction_amount(
                transaction,
                transactions,
            ) {
                Some(x) => self.available.checked_sub(x).is_some() && self.held.checked_add(
                    x,
                ).is_some(),
                None => true,
            },
            TransactionType::Resolve => match referenced_transaction_amount(
                transaction,
                transactions,
            ) {
                Some(x) => self.available.checked_add(x).is_some() && self.held.checked_sub(
                    x,
                ).is_some(),
                None => true,
            },
            TransactionType::Chargeback => match referenced_transaction_amount(
                transaction,
                transactions,
            ) {
                Some(x) => self.held.checked_sub(x).is_some() && self.total.checked_sub(
                    x,
                ).is_some(),
                None => true,
            },
        }
    }

    /// Adds the amount to `available` and `total`; a missing amount is a
    /// malformed row and does nothing.
    fn deposit(&mut self, amount: Option<Amount>)
        requires
            old(self).wf(),
            (amount matches Some(x) ==> x.inv() && can_add(old(self).available, x) && can_add(
                old(self).total,
                x,
            )),
        ensures
            final(self).wf(),
            final(self)@ == (match amount {
                Some(x) => AccountView {
                    available: old(self)@.available + x@,
                    total: old(self)@.total + x@,
                    ..old(self)@
                },
                None => old(self)@,
            }),
            amount is None ==> *final(self) == *old(self),
    {
        if let Some(x) = amount {
            self.available = self.available.checked_add(x).unwrap();
            self.total = self.total.checked_add(x).unwrap();
        }
    }

    /// Subtracts the amount from `available` and `total`; a missing amount
    /// does nothing. `available` may go negative; that is accepted.
    fn withdrawal(&mut self, amount: Option<Amount>)
        requires
            old(self).wf(),
            (amount matches Some(x) ==> x.inv() && can_sub(old(self).available, x) && can_sub(
                old(self).total,
                x,
            )),
        ensures
            final(self).wf(),
            final(self)@ == (match amount {
                Some(x) => AccountView {
                    available: old(self)@.available - x@,
                    total: old(self)@.total - x@,
                    ..old(self)@
                },
                None => old(self)@,
            }),
            amount is None ==> *final(self) == *old(self),
    {
        if let Some(x) = amount {
            self.available = self.available.checked_sub(x).unwrap();
            self.total = self.total.checked_sub(x).unwrap();
        }
    }

    /// Moves the referenced amount from `available` to `held`; an
    /// unresolved reference does nothing.
    fn dispute(&mut self, transaction: &Transaction, transactions: &HashMap<u32, Transaction>)
        requires
            old(self).wf(),
            tx_map_wf(transactions@),
            (spec_referenced_amount(*transaction, transactions@) matches Some(x) ==> can_sub(
                old(self).available,
                x,
            ) && can_add(old(self).held, x)),
        ensures
            final(self).wf(),
            final(self)@ == (match spec_referenced_amount(*transaction, transactions@) {
                Some(x) => AccountView {
                    available: old(self)@.available - x@,
                    held: old(self)@.held + x@,
                    ..old(self)@
                },
                None => old(self)@,
            }),
            spec_referenced_amount(*transaction, transactions@) is None ==> *final(self) == *old(
                self,
            ),
    {
        if let Some(x) = referenced_transaction_amount(transaction, transactions) {
            self.available = self.available.checked_sub(x).unwrap();
            self.held = self.held.checked_add(x).unwrap();
        }
    }

    /// Moves the referenced amount from `held` back to `available`; an
    /// unresolved reference does nothing.
    fn resolve(&mut self, transaction: &Transaction, transactions: &HashMap<u32, Transaction>)
        requires
            old(self).wf(),
            tx_map_wf(transactions@),
            (spec_referenced_amount(*transaction, transactions@) matches Some(x) ==> can_add(
                old(self).available,
                x,
            ) && can_sub(old(self).held, x)),
        ensures
            final(self).wf(),
            final(self)@ == (match spec_referenced_amount(*transaction, transactions@) {
                Some(x) => AccountView {
                    available: old(self)@.available + x@,
                    held: old(self)@.held - x@,
                    ..old(self)@
                },
                None => old(self)@,
            }),
            spec_referenced_amount(*transaction, transactions@) is None ==> *final(self) == *old(
                self,
            ),
    {
        if let Some(x) = referenced_transaction_amount(transaction, transactions) {
            self.available = self.available.checked_add(x).unwrap();
            self.held = self.held.checked_sub(x).unwrap();
        }
    }

    /// Removes the referenced amount from `held` and `total` and locks the
    /// account; an unresolved reference does nothing.
    fn chargeback(&mut self, transaction: &Transaction, transactions: &HashMap<u32, Transaction>)
        requires
            old(self).wf(),
            tx_map_wf(transactions@),
            (spec_referenced_amount(*transaction, transactions@) matches Some(x) ==> can_sub(
                old(self).held,
                x,
            ) && can_sub(old(self).total, x)),
        ensures
            final(self).wf(),
            final(self)@ == (match spec_referenced_amount(*transaction, transactions@) {
                Some(x) => AccountView {
                    held: old(self)@.held - x@,
                    total: old(self)@.total - x@,
                    locked: true,
                    ..old(self)@
                },
                None => old(self)@,
            }),
            spec_referenced_amount(*transaction, transactions@) is None ==> *final(self) == *old(
                self,
            ),
    {
        if let Some(x) = referenced_transaction_amount(transaction, transactions) {
            self.held = self.held.checked_sub(x).unwrap();
            self.total = self.total.checked_sub(x).unwrap();
            self.locked = true;
        }
    }
}

/// Applying any transaction to an account that satisfies the equation
/// `available + held == total` yields an account that satisfies it too.
pub proof fn lemma_apply_preserves_balance(
    a: AccountView,
    t: Transaction,
    txs: Map<u32, Transaction>,
)
    requires
        a.available + a.held == a.total,
    ensures
        spec_apply(a, t, txs).available + spec_apply(a, t, txs).held == spec_apply(
            a,
            t,
            txs,
        ).total,
{
}

/// Disputing, resolving, or charging back a reference that does not resolve
/// (an id never retained, or one retained for another client) leaves the
/// account exactly as it was.
pub proof fn lemma_unresolved_reference_is_no_op(
    a: AccountView,
    t: Transaction,
    txs: Map<u32, Transaction>,
)
    requires
        t.kind == TransactionType::Dispute || t.kind == TransactionType::Resolve || t.kind
            == TransactionType::Chargeback,
        spec_referenced_amount(t, txs) is None,
    ensures
        spec_apply(a, t, txs) == a,
{
}

/// Once an account is locked, no operation of this core unlocks it.
pub proof fn lemma_lock_is_permanent(a: AccountView, t: Transaction, txs: Map<u32, Transaction>)
    requires
        a.locked,
    ensures
        spec_apply(a, t, txs).locked,
{
}

/// A deposit, followed by a dispute and then a resolve of that same
/// transaction, restores `available` and `total` to their values right
/// after the deposit and returns `held` to zero.
pub proof fn lemma_dispute_resolve_round_trip(
    a: AccountView,
    dep: Transaction,
    dis: Transaction,
    res: Transaction,
    txs: Map<u32, Transaction>,
    x: Amount,
)
    requires
        a.held == 0,
        dep.kind == TransactionType::Deposit,
        dep.amount == Some(x),
        dis.kind == TransactionType::Dispute,
        res.kind == TransactionType::Resolve,
        dis.client == dep.client,
        res.client == dep.client,
        dis.tx == dep.tx,
        res.tx == dep.tx,
        txs.contains_key(dep.tx),
        txs[dep.tx] == dep,
    ensures
        spec_apply(spec_apply(spec_apply(a, dep, txs), dis, txs), res, txs).available == spec_apply(
            a,
            dep,
            txs,
        ).available,
        spec_apply(spec_apply(spec_apply(a, dep, txs), dis, txs), res, txs).total == spec_apply(
            a,
            dep,
            txs,
        ).total,
        spec_apply(spec_apply(spec_apply(a, dep, txs), dis, txs), res, txs).held == 0,
        spec_apply(spec_apply(spec_apply(a, dep, txs), dis, txs), res, txs).locked == a.locked,
{
}

} // verus!
