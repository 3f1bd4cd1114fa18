//! The immutable transaction record fed to the processor, as parsed from an
//! input row: a kind, a client id, a transaction id, and an optional amount.

use vstd::prelude::*;

use crate::amount::Amount;

verus! {

/// The five kinds of transaction. Only deposits and withdrawals carry an
/// amount and an own transaction id; the other three reference the id of a
/// prior deposit or withdrawal.
#[derive(Debug, Copy, Clone, PartialEq, Eq, Structural)]
pub enum TransactionType {
    Deposit,
    Withdrawal,
    Dispute,
    Resolve,
    Chargeback,
}

/// One transaction record. `amount` is present only for deposits and
/// withdrawals; for the referencing kinds `tx` names the transaction acted
/// on and `amount` is `None`.
#[derive(Debug, Copy, Clone)]
pub struct Transaction {
    pub kind: TransactionType,
    pub client: u16,
    pub tx: u32,
    pub amount: Option<Amount>,
}

impl Transaction {
    /// Well-formedness: the amount, where present, is representable.
    pub open spec fn wf(self) -> bool {
        self.amount matches Some(x) ==> x.inv()
    }
}

/// Whether a transaction of this kind may be the target of a dispute:
/// only deposits and withdrawals are.
pub open spec fn spec_is_disputable(t: Transaction) -> bool {
    t.kind == TransactionType::Deposit || t.kind == TransactionType::Withdrawal
}

} // verus!
