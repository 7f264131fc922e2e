use std::collections::HashMap;

use rust_decimal::prelude::FromPrimitive;
use rust_decimal::Decimal;

use tx_processor::account::{Account, Balance};
use tx_processor::transaction::{PositiveDecimal, Transaction, TransactionType};

/// The number of 10^-4 units a decimal holds, rescaled exactly as the
/// library's input boundary rescales raw amounts.
fn units_of_f64(v: f64) -> i128 {
    let d = Decimal::from_f64(v).unwrap();
    if d.scale() > 4 {
        let mut x = d;
        x.rescale(4);
        x.mantissa()
    } else {
        d.mantissa() * 10i128.pow(4 - d.scale())
    }
}

#[test]
fn test_transact_locked_account() {
    let mut locked_account = Account::Locked {
        client_id: 1,
        balance: Balance::default(),
    };
    let amount = PositiveDecimal::try_from(units_of_f64(42.2222)).unwrap();
    assert!(locked_account.deposit(amount).is_err());
    assert!(locked_account.withdraw(amount).is_err());
    let empty_log: Vec<Transaction> = vec![];
    assert!(locked_account
        .dispute(888, &empty_log, &mut HashMap::new())
        .is_err());
    assert!(locked_account.resolve(888, &mut HashMap::new()).is_err());
    assert!(locked_account.chargeback(888, &mut HashMap::new()).is_err());
    // the failed operations hand nothing over and change nothing
    let untouched = Account::Locked {
        client_id: 1,
        balance: Balance::default(),
    };
    assert_eq!(locked_account, untouched);
}

#[test]
fn test_deposit_unlocked_account() {
    let mut account = Account::new(1);
    let zero = PositiveDecimal::try_from(0).unwrap();
    let amount = PositiveDecimal::try_from(units_of_f64(42.2222)).unwrap();
    assert_eq!(account.balance().available, zero);
    assert_eq!(account.balance().held, zero);
    let res = account.deposit(amount);
    assert!(res.is_ok());
    assert_eq!(account.balance().available, amount);
    assert_eq!(account.balance().held, zero);
}

#[test]
fn test_withdraw_unlocked_account() {
    // setup
    let mut account = Account::new(1);
    let zero = PositiveDecimal::try_from(0).unwrap();
    let amount = PositiveDecimal::try_from(units_of_f64(42.2222)).unwrap();
    let res = account.deposit(amount);
    assert!(res.is_ok());
    assert_eq!(account.balance().available, amount);
    assert_eq!(account.balance().held, zero);

    // perform valid withdrawal
    let withdrawal_amount = PositiveDecimal::try_from(units_of_f64(1.2222)).unwrap();
    let new_amount = PositiveDecimal::try_from(units_of_f64(41.0000)).unwrap();
    let res = account.withdraw(withdrawal_amount);
    assert!(res.is_ok());
    assert_eq!(account.balance().available, new_amount);
    assert_eq!(account.balance().held, zero);

    // perform invalid withdrawal
    let withdrawal_amount = PositiveDecimal::try_from(units_of_f64(45.0)).unwrap();
    let res = account.withdraw(withdrawal_amount);
    assert!(res.is_err());
    // balance and held should not have changed
    assert_eq!(account.balance().available, new_amount);
    assert_eq!(account.balance().held, zero);

    // full withdrawal
    let res = account.withdraw(new_amount);
    assert!(res.is_ok());
    assert_eq!(account.balance().available, zero);
    assert_eq!(account.balance().held, zero);
}

#[test]
fn test_dispute_unlocked_account() {
    // setup
    let disputed_tx_id: u32 = 999;
    let client_id: u16 = 5;
    let zero = PositiveDecimal::try_from(0).unwrap();
    let amount = PositiveDecimal::try_from(units_of_f64(10000.1000)).unwrap();
    let mut map = HashMap::new();
    map.insert(disputed_tx_id, (client_id, zero));

    // can't dispute something that's already disputed
    let mut account = Account::new(client_id);
    let empty_log: Vec<Transaction> = vec![];
    let res = account.dispute(disputed_tx_id, &empty_log, &mut map);
    assert!(res.is_err());

    // can't find a transaction
    map.clear();
    let res = account.dispute(disputed_tx_id, &empty_log, &mut map);
    assert!(res.is_err());

    // can't dispute a transaction from someone else
    let tx = Transaction::new(
        client_id + 1,
        disputed_tx_id,
        TransactionType::Deposit { amount },
    );
    let res = account.dispute(disputed_tx_id, &vec![tx], &mut map);
    assert!(res.is_err());

    // can't dispute a transaction other than a deposit or withdrawal
    let tx = Transaction::new(client_id, disputed_tx_id, TransactionType::Dispute);
    let res = account.dispute(disputed_tx_id, &vec![tx], &mut map);
    assert!(res.is_err());
    let tx = Transaction::new(client_id, disputed_tx_id, TransactionType::Resolve);
    let res = account.dispute(disputed_tx_id, &vec![tx], &mut map);
    assert!(res.is_err());
    let tx = Transaction::new(client_id, disputed_tx_id, TransactionType::Chargeback);
    let res = account.dispute(disputed_tx_id, &vec![tx], &mut map);
    assert!(res.is_err());

    // cant dispute deposits or withdrawals without funds
    let tx = Transaction::new(
        client_id,
        disputed_tx_id,
        TransactionType::Deposit { amount },
    );
    assert!(map.is_empty());
    let res = account.dispute(disputed_tx_id, &vec![tx], &mut map);
    assert!(res.is_err());
    assert!(map.is_empty());

    let tx = Transaction::new(
        client_id,
        disputed_tx_id,
        TransactionType::Withdrawal { amount },
    );
    assert!(map.is_empty());
    let res = account.dispute(disputed_tx_id, &vec![tx], &mut map);
    assert!(res.is_err());
    assert!(map.is_empty());

    // can dispute deposits and withdrawals with funds
    let large_amount = PositiveDecimal::try_from(units_of_f64(100_000_000.100_0)).unwrap();
    account.deposit(large_amount).unwrap();
    assert_eq!(account.balance().available, large_amount);
    assert_eq!(account.balance().held, zero);
    let tx_1 = Transaction::new(
        client_id,
        disputed_tx_id - 1,
        TransactionType::Deposit {
            amount: large_amount,
        },
    );
    let tx_2 = Transaction::new(
        client_id,
        disputed_tx_id,
        TransactionType::Deposit { amount },
    );
    assert!(map.is_empty());
    let res = account.dispute(disputed_tx_id, &vec![tx_1, tx_2], &mut map);
    assert!(res.is_ok());
    assert_eq!(map.len(), 1);
    assert_eq!(map.get(&disputed_tx_id).unwrap(), &(client_id, amount));
    assert_eq!(
        account.balance().available,
        large_amount.checked_sub(amount).unwrap()
    );
    assert_eq!(account.balance().held, amount);

    let tx_1 = Transaction::new(
        client_id,
        disputed_tx_id - 1,
        TransactionType::Deposit {
            amount: large_amount,
        },
    );
    let tx_2 = Transaction::new(
        client_id,
        disputed_tx_id,
        TransactionType::Withdrawal { amount },
    );
    map.clear();
    assert!(map.is_empty());
    let res = account.dispute(disputed_tx_id, &vec![tx_1, tx_2], &mut map);
    assert!(res.is_ok());
    assert_eq!(map.len(), 1);
    assert_eq!(map.get(&disputed_tx_id).unwrap(), &(client_id, amount));
    assert_eq!(
        account.balance().available,
        large_amount
            .checked_sub(amount)
            .unwrap()
            .checked_sub(amount)
            .unwrap()
    );
    assert_eq!(account.balance().held, amount.checked_add(amount).unwrap());
}

#[test]
fn test_resolve_unlocked_account() {
    // setup
    let disputed_tx_id: u32 = 999;
    let client_id: u16 = 5;
    let zero = PositiveDecimal::try_from(0).unwrap();
    let amount = PositiveDecimal::try_from(units_of_f64(10000.1000)).unwrap();
    let mut map = HashMap::new();

    // can't resolve something that's not in the map
    let mut account = Account::new(client_id);
    let res = account.resolve(disputed_tx_id, &mut map);
    assert!(res.is_err());

    // can't resolve something for a different client_id
    map.insert(disputed_tx_id, (client_id + 1, amount));
    assert_eq!(map.len(), 1);
    let res = account.resolve(disputed_tx_id, &mut map);
    assert!(res.is_err());
    assert_eq!(map.len(), 1);

    // can resolve something valid
    map.clear();
    assert!(map.is_empty());
    assert_eq!(account.balance().available, zero);
    assert_eq!(account.balance().held, zero);
    account.deposit(amount).unwrap();
    assert_eq!(account.balance().available, amount);
    assert_eq!(account.balance().held, zero);
    let tx = Transaction::new(
        client_id,
        disputed_tx_id,
        TransactionType::Deposit { amount },
    );
    account.dispute(disputed_tx_id, &vec![tx], &mut map).unwrap();
    assert_eq!(account.balance().available, zero);
    assert_eq!(account.balance().held, amount);
    let res = account.resolve(disputed_tx_id, &mut map);
    assert!(res.is_ok());
    assert_eq!(account.balance().available, amount);
    assert_eq!(account.balance().held, zero);
}

#[test]
fn test_chargeback_unlocked_account() {
    // setup
    let disputed_tx_id: u32 = 999;
    let client_id: u16 = 5;
    let zero = PositiveDecimal::try_from(0).unwrap();
    let amount = PositiveDecimal::try_from(units_of_f64(10000.1000)).unwrap();
    let mut map = HashMap::new();

    // can't chargeback something that's not in the map
    let mut account = Account::new(client_id);
    let res = account.chargeback(disputed_tx_id, &mut map);
    assert!(res.is_err());
    assert!(!account.locked());

    // can't chargeback something for a different client_id
    map.insert(disputed_tx_id, (client_id + 1, amount));
    assert_eq!(map.len(), 1);
    let res = account.chargeback(disputed_tx_id, &mut map);
    assert!(res.is_err());
    assert_eq!(map.len(), 1);
    assert!(!account.locked());

    // can chargeback something valid
    map.clear();
    assert!(map.is_empty());
    assert_eq!(account.balance().available, zero);
    assert_eq!(account.balance().held, zero);
    account.deposit(amount).unwrap();
    assert_eq!(account.balance().available, amount);
    assert_eq!(account.balance().held, zero);
    let tx = Transaction::new(
        client_id,
        disputed_tx_id,
        TransactionType::Deposit { amount },
    );
    account.dispute(disputed_tx_id, &vec![tx], &mut map).unwrap();
    assert_eq!(account.balance().available, zero);
    assert_eq!(account.balance().held, amount);
    let res = account.chargeback(disputed_tx_id, &mut map);
    assert!(res.is_ok());
    assert!(account.locked());
    assert_eq!(account.balance().available, zero);
    assert_eq!(account.balance().held, zero);
}
