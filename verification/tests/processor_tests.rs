use std::collections::HashMap;
use std::str::FromStr;

use rust_decimal::Decimal;
use txledger::account::ClientAccount;
use txledger::amount::Amount;
use txledger::processor::TransactionProcessor;
use txledger::transaction::{Transaction, TransactionType};

fn amount(s: &str) -> Amount {
    let d = Decimal::from_str(s).unwrap();
    Amount::new(d.mantissa(), d.scale()).unwrap()
}

struct TransactionTest {
    input: Vec<Transaction>,
    expected_output: HashMap<u16, ClientAccount>,
}

impl TransactionTest {
    fn new() -> Self {
        Self { input: vec![], expected_output: HashMap::new() }
    }

    fn deposit(&mut self, client: u16, tx: u32, amount: &str) {
        self.transaction_with_amount(TransactionType::Deposit, client, tx, amount)
    }

    fn withdrawal(&mut self, client: u16, tx: u32, amount: &str) {
        self.transaction_with_amount(TransactionType::Withdrawal, client, tx, amount)
    }

    fn dispute(&mut self, client: u16, tx: u32) {
        self.transaction_no_amount(TransactionType::Dispute, client, tx)
    }

    fn resolve(&mut self, client: u16, tx: u32) {
        self.transaction_no_amount(TransactionType::Resolve, client, tx)
    }

    fn chargeback(&mut self, client: u16, tx: u32) {
        self.transaction_no_amount(TransactionType::Chargeback, client, tx)
    }

    fn transaction_with_amount(
        &mut self,
        kind: TransactionType,
        client: u16,
        tx: u32,
        value: &str,
    ) {
        self.input.push(Transaction { kind, client, tx, amount: Some(amount(value)) });
    }

    fn transaction_no_amount(&mut self, kind: TransactionType, client: u16, tx: u32) {
        self.input.push(Transaction { kind, client, tx, amount: None });
    }

    fn expected(&mut self, client: u16, available: &str, held: &str, total: &str, locked: bool) {
        let account = ClientAccount {
            client,
            available: amount(available),
            held: amount(held),
            total: amount(total),
            locked,
        };
        self.expected_output.insert(client, account);
    }

    fn run(self) {
        let mut processor = TransactionProcessor::new();

        for transaction in &self.input {
            processor.preprocess(transaction);
        }
        for transaction in &self.input {
            assert!(processor.process_fits(transaction));
            processor.process(transaction);
        }

        let accounts = processor.into_accounts();
        assert_eq!(accounts.len(), self.expected_output.len());
        for (client, expected) in &self.expected_output {
            let actual = accounts.get(client).expect("no account for expected client");
            assert_eq!(actual.client, expected.client);
            assert!(actual.available.eq_value(&expected.available));
            assert!(actual.held.eq_value(&expected.held));
            assert!(actual.total.eq_value(&expected.total));
            assert_eq!(actual.locked, expected.locked);
        }
    }
}

#[test]
fn one_deposit() {
    let mut test = TransactionTest::new();
    test.deposit(1, 1, "2.0");
    test.expected(1, "2", "0", "2", false);
    test.run();
}

#[test]
fn one_withdrawal() {
    let mut test = TransactionTest::new();
    test.withdrawal(1, 1, "2.0");
    test.expected(1, "-2", "0", "-2", false);
    test.run();
}

#[test]
fn one_dispute() {
    let mut test = TransactionTest::new();
    test.deposit(1, 1, "2.0");
    test.dispute(1, 1);
    test.expected(1, "0", "2", "2", false);
    test.run();
}

#[test]
fn one_resolve() {
    let mut test = TransactionTest::new();
    test.deposit(1, 1, "2.0");
    test.dispute(1, 1);
    test.resolve(1, 1);
    test.expected(1, "2", "0", "2", false);
    test.run();
}

#[test]
fn one_chargeback() {
    let mut test = TransactionTest::new();
    test.deposit(1, 1, "2.0");
    test.dispute(1, 1);
    test.chargeback(1, 1);
    test.expected(1, "0", "0", "0", true);
    test.run();
}

#[test]
fn multiple_deposits_and_withdrawals() {
    let mut test = TransactionTest::new();
    test.deposit(1, 1, "10.0");
    test.withdrawal(1, 2, "20.0");
    test.deposit(1, 3, "30.0");
    test.deposit(1, 4, "40.0");
    test.withdrawal(1, 5, "50.0");
    test.deposit(1, 6, "60.0");
    test.expected(1, "70", "0", "70", false);
    test.run();
}

#[test]
fn dispute_transaction_that_does_not_exist() {
    let mut test = TransactionTest::new();
    test.dispute(1, 1);
    test.expected(1, "0", "0", "0", false);
    test.run();
}

#[test]
fn resolve_dispute_that_does_not_exist() {
    let mut test = TransactionTest::new();
    test.resolve(1, 1);
    test.expected(1, "0", "0", "0", false);
    test.run();
}

#[test]
fn resolve_dispute_that_does_not_exist_but_deposit_does() {
    let mut test = TransactionTest::new();
    test.deposit(1, 1, "2.0");
    test.resolve(1, 1);
    test.expected(1, "2", "0", "2", false);
    test.run();
}

#[test]
fn chargeback_dispute_that_does_not_exist() {
    let mut test = TransactionTest::new();
    test.chargeback(1, 1);
    test.expected(1, "0", "0", "0", false);
    test.run();
}

#[test]
fn chargeback_dispute_that_does_not_exist_but_deposit_does() {
    let mut test = TransactionTest::new();
    test.deposit(1, 1, "2.0");
    test.chargeback(1, 1);
    test.expected(1, "2", "0", "2", false);
    test.run();
}

#[test]
fn multiple_clients() {
    let mut test = TransactionTest::new();
    test.deposit(1, 1, "10.0");
    test.deposit(2, 2, "20.0");
    test.expected(1, "10", "0", "10", false);
    test.expected(2, "20", "0", "20", false);
    test.run();
}

#[test]
fn multiple_clients_with_a_dispute() {
    let mut test = TransactionTest::new();
    test.deposit(1, 1, "10.0");
    test.deposit(2, 2, "20.0");
    test.dispute(1, 1);
    test.expected(1, "0", "10", "10", false);
    test.expected(2, "20", "0", "20", false);
    test.run();
}

#[test]
fn multiple_clients_with_a_resolve() {
    let mut test = TransactionTest::new();
    test.deposit(1, 1, "10.0");
    test.deposit(2, 2, "20.0");
    test.dispute(1, 1);
    test.resolve(1, 1);
    test.expected(1, "10", "0", "10", false);
    test.expected(2, "20", "0", "20", false);
    test.run();
}

#[test]
fn multiple_clients_with_a_chargeback() {
    let mut test = TransactionTest::new();
    test.deposit(1, 1, "10.0");
    test.deposit(2, 2, "20.0");
    test.dispute(1, 1);
    test.chargeback(1, 1);
    test.expected(1, "0", "0", "0", true);
    test.expected(2, "20", "0", "20", false);
    test.run();
}

#[test]
fn multiple_clients_with_a_dispute_incorrect_client() {
    let mut test = TransactionTest::new();
    test.deposit(1, 1, "10.0");
    test.deposit(2, 2, "20.0");
    test.dispute(2, 1);
    test.expected(1, "10", "0", "10", false);
    test.expected(2, "20", "0", "20", false);
    test.run();
}

#[test]
fn multiple_clients_with_a_resolve_incorrect_client() {
    let mut test = TransactionTest::new();
    test.deposit(1, 1, "10.0");
    test.deposit(2, 2, "20.0");
    test.dispute(1, 1);
    test.resolve(2, 1);
    test.expected(1, "0", "10", "10", false);
    test.expected(2, "20", "0", "20", false);
    test.run();
}

#[test]
fn multiple_clients_with_a_chargeback_incorrect_client() {
    let mut test = TransactionTest::new();
    test.deposit(1, 1, "10.0");
    test.deposit(2, 2, "20.0");
    test.dispute(1, 1);
    test.chargeback(2, 1);
    test.expected(1, "0", "10", "10", false);
    test.expected(2, "20", "0", "20", false);
    test.run();
}

#[test]
fn deposit_withdrawal_deposit_nets_total() {
    let mut test = TransactionTest::new();
    test.deposit(1, 1, "10");
    test.withdrawal(1, 2, "20");
    test.deposit(1, 3, "30");
    test.expected(1, "20", "0", "20", false);
    test.run();
}

#[test]
fn empty_run_has_no_accounts() {
    let processor = TransactionProcessor::new();
    let accounts = processor.into_accounts();
    assert!(accounts.is_empty());
}

#[test]
fn exact_decimal_sums() {
    let mut test = TransactionTest::new();
    test.deposit(1, 1, "0.1");
    test.deposit(1, 2, "0.2");
    test.expected(1, "0.3", "0", "0.3", false);
    test.run();
}

#[test]
fn four_decimal_places_are_kept() {
    let mut test = TransactionTest::new();
    test.deposit(1, 1, "1.1577");
    test.expected(1, "1.1577", "0", "1.1577", false);
    test.run();
}

#[test]
fn deposit_after_chargeback_keeps_account_locked() {
    let mut test = TransactionTest::new();
    test.deposit(1, 1, "2.0");
    test.dispute(1, 1);
    test.chargeback(1, 1);
    test.deposit(1, 2, "5");
    test.expected(1, "5", "0", "5", true);
    test.run();
}

#[test]
fn dispute_of_a_withdrawal_moves_its_amount() {
    let mut test = TransactionTest::new();
    test.deposit(1, 1, "10");
    test.withdrawal(1, 2, "4");
    test.dispute(1, 2);
    test.expected(1, "2", "4", "6", false);
    test.run();
}

#[test]
fn process_fits_rejects_an_unrepresentable_sum() {
    let mut processor = TransactionProcessor::new();
    let huge = Transaction {
        kind: TransactionType::Deposit,
        client: 1,
        tx: 1,
        amount: Some(Amount::new(txledger::amount::MAX_UNITS, 0).unwrap()),
    };
    let one_more = Transaction {
        kind: TransactionType::Deposit,
        client: 1,
        tx: 2,
        amount: Some(Amount::new(1, 0).unwrap()),
    };
    processor.preprocess(&huge);
    processor.preprocess(&one_more);
    assert!(processor.process_fits(&huge));
    processor.process(&huge);
    assert!(!processor.process_fits(&one_more));
}

#[test]
fn deposit_with_missing_amount_is_ignored() {
    let mut test = TransactionTest::new();
    test.transaction_no_amount(TransactionType::Deposit, 1, 1);
    test.deposit(1, 2, "3");
    test.expected(1, "3", "0", "3", false);
    test.run();
}
