//! The transaction processor: owns the per-client accounts and the
//! dispute bookkeeping, and presents the two-pass ingestion contract.
//!
//! Pass one ([`TransactionProcessor::preprocess`]) collects the ids named by
//! dispute records over the whole stream. Pass two
//! ([`TransactionProcessor::process`]) applies each record to its client's
//! account, and retains a copy of each deposit or withdrawal whose id the
//! first pass marked disputed, so that a dispute may reference a
//! transaction that appears later in the stream than itself.

use vstd::prelude::*;

use std::collections::HashMap;
use std::collections::HashSet;

use crate::account::{
    apply_fits, spec_apply, spec_new_account, tx_map_wf, ClientAccount,
};
use crate::transaction::{spec_is_disputable, Transaction, TransactionType};

verus! {

broadcast use vstd::std_specs::hash::group_hash_axioms;

/// The state of one run: the disputed-id set from pass one, the retained
/// disputable transactions, and the accounts touched so far.
pub struct TransactionProcessor {
    disputed_transaction_ids: HashSet<u32>,
    disputed_transactions: HashMap<u32, Transaction>,
    accounts: HashMap<u16, ClientAccount>,
}

/// Whether a transaction may be the target of a dispute.
fn is_disputable(transaction: &Transaction) -> (r: bool)
    ensures
        r == spec_is_disputable(*transaction),
{
    transaction.kind == TransactionType::Deposit || transaction.kind
        == TransactionType::Withdrawal
}

impl TransactionProcessor {
    /// The ids that have appeared in a dispute record so far.
    pub closed spec fn disputed_ids(self) -> Set<u32> {
        self.disputed_transaction_ids@
    }

    /// The retained disputable transactions, keyed by their id.
    pub closed spec fn retained(self) -> Map<u32, Transaction> {
        self.disputed_transactions@
    }

    /// The accounts touched so far, keyed by client id.
    pub closed spec fn accounts_map(self) -> Map<u16, ClientAccount> {
        self.accounts@
    }

    /// Well-formedness: every account satisfies its own invariant and sits
    /// under its client's key; every retained transaction is a well-formed
    /// disputable one sitting under its own id.
    pub open spec fn wf(self) -> bool {
        &&& (forall|c: u16| #[trigger] self.accounts_map().contains_key(c)
            ==> self.accounts_map()[c].wf() && self.accounts_map()[c].client == c)
        &&& (forall|k: u32| #[trigger] self.retained().contains_key(k) ==> self.retained()[k].wf()
            && self.retained()[k].tx == k && spec_is_disputable(self.retained()[k]))
    }

    /// The account a transaction of `client` routes to: the existing one,
    /// or a fresh zero-balance one created lazily.
    pub open spec fn spec_account_for(self, client: u16) -> ClientAccount {
        if self.accounts_map().contains_key(client) {
            self.accounts_map()[client]
        } else {
            spec_new_account(client)
        }
    }

    /// Whether applying the transaction would keep every balance of the
    /// routed account representable.
    pub open spec fn spec_process_fits(self, t: Transaction) -> bool {
        apply_fits(self.spec_account_for(t.client), t, self.retained())
    }

    /// An empty run: no disputes seen, nothing retained, no accounts.
    pub fn new() -> (r: TransactionProcessor)
        ensures
            r.wf(),
            r.disputed_ids() == Set::<u32>::empty(),
            r.retained() == Map::<u32, Transaction>::empty(),
            r.accounts_map() == Map::<u16, ClientAccount>::empty(),
    {
        TransactionProcessor {
            disputed_transaction_ids: HashSet::new(),
            disputed_transactions: HashMap::new(),
            accounts: HashMap::new(),
        }
    }

    /// Pass one, called once per record in stream order: records the id of
    /// every dispute; all other kinds are ignored. Must have run over the
    /// entire stream before any [`Self::process`] call.
    pub fn preprocess(&mut self, transaction: &Transaction)
        requires
            old(self).wf(),
        ensures
            final(self).wf(),
            final(self).disputed_ids() == (if transaction.kind == TransactionType::Dispute {
                old(self).disputed_ids().insert(transaction.tx)
            } else {
                old(self).disputed_ids()
            }),
            final(self).retained() == old(self).retained(),
            final(self).accounts_map() == old(self).accounts_map(),
    {
        if transaction.kind == TransactionType::Dispute {
            self.disputed_transaction_ids.insert(transaction.tx);
        }
        proof {
            assert(self.accounts_map() == old(self).accounts_map());
            assert(self.retained() == old(self).retained());
        }
    }

    /// Pass two, called once per record in the same stream order: applies
    /// the record to its client's account (created lazily at zero), then
    /// retains a copy of a deposit or withdrawal whose id pass one marked
    /// disputed. The applied account is exactly [`spec_apply`] of the routed
    /// one, against the transactions retained before this call.
    pub fn process(&mut self, transaction: &Transaction)
        requires
            old(self).wf(),
            transaction.wf(),
            old(self).spec_process_fits(*transaction),
        ensures
            final(self).wf(),
            final(self).disputed_ids() == old(self).disputed_ids(),
            final(self).accounts_map().contains_key(transaction.client),
            final(self).accounts_map()[transaction.client]@ == spec_apply(
                old(self).spec_account_for(transaction.client)@,
                *transaction,
                old(self).retained(),
            ),
            final(self).accounts_map() == old(self).accounts_map().insert(
                transaction.client,
                final(self).accounts_map()[transaction.client],
            ),
            final(self).retained() == (if spec_is_disputable(*transaction)
                && old(self).disputed_ids().contains(transaction.tx) {
                old(self).retained().insert(transaction.tx, *transaction)
            } else {
                old(self).retained()
            }),
    {
        let mut account: ClientAccount = match self.accounts.get(&transaction.client) {
            None => ClientAccount::new(transaction.client),
            Some(a) => *a,
        };
        account.combine(transaction, &self.disputed_transactions);
        self.accounts.insert(transaction.client, account);

        if is_disputable(transaction) && self.disputed_transaction_ids.contains(&transaction.tx) {
            self.disputed_transactions.insert(transaction.tx, *transaction);
        }
    }

    /// Whether applying the transaction now would keep every balance of the
    /// routed account representable: the executable form of
    /// [`Self::spec_process_fits`]. A caller checks this before
    /// [`Self::process`]; a violation is an unrecoverable fault of the run.
    pub fn process_fits(&self, transaction: &Transaction) -> (b: bool)
        requires
            self.wf(),
            transaction.wf(),
        ensures
            b == self.spec_process_fits(*transaction),
    {
        let account: ClientAccount = match self.accounts.get(&transaction.client) {
            None => ClientAccount::new(transaction.client),
            Some(a) => {
                proof {
                    assert(self.accounts_map().contains_key(transaction.client));
                }
                *a
            },
        };
        account.combine_fits(transaction, &self.disputed_transactions)
    }

    /// In a well-formed processor — which [`Self::new`], [`Self::preprocess`]
    /// and [`Self::process`] all establish — every account ever touched
    /// satisfies the account equation `available + held == total`.
    pub proof fn lemma_accounts_balanced(self, client: u16)
        requires
            self.wf(),
            self.accounts_map().contains_key(client),
        ensures
            self.accounts_map()[client]@.available + self.accounts_map()[client]@.held
                == self.accounts_map()[client]@.total,
    {
    }

    /// Hands the accumulated accounts out, one per client ever touched, in
    /// no guaranteed order.
    pub fn into_accounts(self) -> (r: HashMap<u16, ClientAccount>)
        ensures
            r@ == self.accounts_map(),
    {
        self.accounts
    }
}

} // verus!
