use rust_decimal::prelude::FromPrimitive;
use rust_decimal::Decimal;

use tx_processor::ledger::Ledger;
use tx_processor::transaction::{
    PositiveDecimal, Transaction, TransactionRecord, TransactionRecordType, TransactionType,
};

/// The number of 10^-4 units a decimal holds, rescaled exactly as the
/// library's input boundary rescales raw amounts.
fn units_of_f64(v: f64) -> i128 {
    let d = Decimal::from_f64(v).unwrap();
    if d.scale() > 4 {
        let mut x = d;
        x.rescale(4);
        x.mantissa()
    } else {
        d.mantissa() * 10i128.pow(4 - d.scale())
    }
}

fn record(
    transaction_type: TransactionRecordType,
    client_id: u16,
    transaction_id: u32,
    amount: Option<f64>,
) -> TransactionRecord {
    TransactionRecord {
        transaction_type,
        client_id,
        transaction_id,
        amount: amount.map(units_of_f64),
    }
}

/// The rows of a small well-formed input: three deposits and one withdrawal
/// over two clients.
fn make_simple_records() -> Vec<TransactionRecord> {
    vec![
        record(TransactionRecordType::Deposit, 1, 1, Some(1.0)),
        record(TransactionRecordType::Deposit, 2, 2, Some(2.0)),
        record(TransactionRecordType::Deposit, 1, 3, Some(2.0)),
        record(TransactionRecordType::Withdrawal, 1, 4, Some(1.5)),
    ]
}

fn make_simple_tx() -> Vec<Transaction> {
    let amount_1 = PositiveDecimal::try_from(units_of_f64(1.0000)).unwrap();
    let tx_1 = Transaction::new(1, 1, TransactionType::Deposit { amount: amount_1 });
    let amount_2 = PositiveDecimal::try_from(units_of_f64(2.0000)).unwrap();
    let tx_2 = Transaction::new(2, 2, TransactionType::Deposit { amount: amount_2 });
    let tx_3 = Transaction::new(1, 3, TransactionType::Deposit { amount: amount_2 });
    let amount_3 = PositiveDecimal::try_from(units_of_f64(1.5000)).unwrap();
    let tx_4 = Transaction::new(1, 4, TransactionType::Withdrawal { amount: amount_3 });
    let txs = vec![tx_1, tx_2, tx_3, tx_4];

    txs
}

#[test]
fn test_simple_transactions() {
    let mut ledger = Ledger::default();
    ledger.process_csv_transactions(make_simple_records());

    let txs = make_simple_tx();
    assert_eq!(ledger.transactions(), &txs);
}

#[test]
fn test_resolve() {
    let mut records = make_simple_records();
    records.push(record(TransactionRecordType::Deposit, 3, 6, Some(2000.0)));
    records.push(record(TransactionRecordType::Withdrawal, 3, 7, Some(10.0)));
    records.push(record(TransactionRecordType::Dispute, 3, 7, None));
    records.push(record(TransactionRecordType::Resolve, 3, 7, None));
    let mut ledger = Ledger::default();
    ledger.process_csv_transactions(records);

    let mut txs = make_simple_tx();
    let amount_1 = PositiveDecimal::try_from(units_of_f64(2000.0000)).unwrap();
    let amount_2 = PositiveDecimal::try_from(units_of_f64(10.0000)).unwrap();
    let tx_1 = Transaction::new(3, 6, TransactionType::Deposit { amount: amount_1 });
    let tx_2 = Transaction::new(3, 7, TransactionType::Withdrawal { amount: amount_2 });
    let tx_3 = Transaction::new(3, 7, TransactionType::Dispute);
    let tx_4 = Transaction::new(3, 7, TransactionType::Resolve);
    txs.push(tx_1);
    txs.push(tx_2);
    txs.push(tx_3);
    txs.push(tx_4);
    assert_eq!(ledger.transactions(), &txs);
    assert_eq!(ledger.active_accounts().len(), 3);
    assert_eq!(ledger.locked_accounts().len(), 0);
}

#[test]
fn test_chargeback() {
    let mut records = make_simple_records();
    records.push(record(TransactionRecordType::Deposit, 3, 6, Some(2000.0)));
    records.push(record(TransactionRecordType::Withdrawal, 3, 7, Some(10.0)));
    records.push(record(TransactionRecordType::Dispute, 3, 7, None));
    records.push(record(TransactionRecordType::Chargeback, 3, 7, None));
    let mut ledger = Ledger::default();
    ledger.process_csv_transactions(records);

    let mut txs = make_simple_tx();

    let amount_1 = PositiveDecimal::try_from(units_of_f64(2000.0000)).unwrap();
    let amount_2 = PositiveDecimal::try_from(units_of_f64(10.0000)).unwrap();
    let tx_1 = Transaction::new(3, 6, TransactionType::Deposit { amount: amount_1 });
    let tx_2 = Transaction::new(3, 7, TransactionType::Withdrawal { amount: amount_2 });
    let tx_3 = Transaction::new(3, 7, TransactionType::Dispute);
    let tx_4 = Transaction::new(3, 7, TransactionType::Chargeback);
    txs.push(tx_1);
    txs.push(tx_2);
    txs.push(tx_3);
    txs.push(tx_4);

    assert_eq!(ledger.transactions(), &txs);
    assert_eq!(ledger.active_accounts().len(), 2);
    assert_eq!(ledger.locked_accounts().len(), 1);
}

#[test]
fn test_record_failing_validation_is_dropped() {
    // a deposit without an amount and a negative withdrawal are both dropped
    // by validation; the remaining rows are processed normally
    let mut records = make_simple_records();
    records.insert(
        2,
        record(TransactionRecordType::Deposit, 1, 90, None),
    );
    records.push(record(TransactionRecordType::Withdrawal, 2, 91, Some(-3.5)));
    let mut ledger = Ledger::default();
    ledger.process_csv_transactions(records);

    let txs = make_simple_tx();
    assert_eq!(ledger.transactions(), &txs);
    assert_eq!(ledger.active_accounts().len(), 2);
}
