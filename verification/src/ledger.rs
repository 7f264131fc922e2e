use vstd::prelude::*;

use std::collections::HashMap;

use crate::account::Account;
use crate::error::TxError;
use crate::transaction::{PositiveDecimal, Transaction, TransactionRecord, TransactionType};

verus! {

broadcast use vstd::std_specs::hash::group_hash_axioms;

/// The ledger: owner of the append-only transaction log, the active and
/// locked account maps, and the open-disputes index. Transactions are applied
/// strictly in sequence; a failing transaction is rejected without being
/// logged and leaves the ledger otherwise unchanged.
#[derive(Debug)]
pub struct Ledger {
    pub active_accounts: HashMap<u16, Account>,
    pub locked_accounts: HashMap<u16, Account>,
    pub transactions: Vec<Transaction>,
    /// Map of `transaction_id` to `(owning client_id, disputed amount)`.
    pub disputed_tx_map: HashMap<u32, (u16, PositiveDecimal)>,
}

/// The mathematical state of a [`Ledger`].
#[verifier::ext_equal]
pub ghost struct LedgerModel {
    pub active: Map<u16, Account>,
    pub locked: Map<u16, Account>,
    pub log: Seq<Transaction>,
    pub disputes: Map<u32, (u16, PositiveDecimal)>,
}

impl View for Ledger {
    type V = LedgerModel;

    open spec fn view(&self) -> LedgerModel {
        LedgerModel {
            active: self.active_accounts@,
            locked: self.locked_accounts@,
            log: self.transactions@,
            disputes: self.disputed_tx_map@,
        }
    }
}

impl LedgerModel {
    /// The ledger's invariant: active accounts are active and keyed by their
    /// own client id, locked accounts likewise; no client is in both maps;
    /// every logged transaction and every indexed dispute amount is valid.
    pub open spec fn wf(self) -> bool {
        &&& forall|c: u16|
            #[trigger] self.active.contains_key(c) ==> self.active[c] is Active
                && self.active[c].spec_client_id() == c && self.active[c].valid()
        &&& forall|c: u16|
            #[trigger] self.locked.contains_key(c) ==> self.locked[c] is Locked
                && self.locked[c].spec_client_id() == c && self.locked[c].valid()
        &&& forall|c: u16| #[trigger] self.active.contains_key(c) ==> !self.locked.contains_key(c)
        &&& forall|i: int| 0 <= i < self.log.len() ==> (#[trigger] self.log[i]).valid()
        &&& forall|t: u32|
            #[trigger] self.disputes.contains_key(t) ==> self.disputes[t].1.valid()
    }

    /// The empty ledger.
    pub open spec fn empty() -> LedgerModel {
        LedgerModel {
            active: Map::empty(),
            locked: Map::empty(),
            log: Seq::empty(),
            disputes: Map::empty(),
        }
    }
}

/// One step of the ledger's state machine: the state after applying `tx` to
/// `m`, together with the outcome reported for `tx`.
///
/// A transaction on a locked client is rejected outright. Otherwise the
/// client's active account is fetched — or lazily created, and it is kept
/// even when the operation then fails — and the operation dispatches by
/// kind. Only on success is `tx` appended to the log; a successful
/// chargeback additionally moves the account from the active to the locked
/// map.
pub open spec fn spec_step(m: LedgerModel, tx: Transaction) -> (LedgerModel, Result<(), TxError>) {
    if m.locked.contains_key(tx.client_id) {
        (m, Err(TxError::LockedAccount))
    } else {
        let acc = if m.active.contains_key(tx.client_id) {
            m.active[tx.client_id]
        } else {
            Account::spec_new(tx.client_id)
        };
        match tx.tx_type {
            TransactionType::Deposit { amount } => match acc.spec_deposit(amount) {
                Ok(a) => (
                    LedgerModel {
                        active: m.active.insert(tx.client_id, a),
                        log: m.log.push(tx),
                        ..m
                    },
                    Ok(()),
                ),
                Err(e) => (LedgerModel { active: m.active.insert(tx.client_id, acc), ..m }, Err(e)),
            },
            TransactionType::Withdrawal { amount } => match acc.spec_withdraw(amount) {
                Ok(a) => (
                    LedgerModel {
                        active: m.active.insert(tx.client_id, a),
                        log: m.log.push(tx),
                        ..m
                    },
                    Ok(()),
                ),
                Err(e) => (LedgerModel { active: m.active.insert(tx.client_id, acc), ..m }, Err(e)),
            },
            TransactionType::Dispute => match acc.spec_dispute(
                tx.transaction_id,
                m.log,
                m.disputes,
            ) {
                Ok((a, d)) => (
                    LedgerModel {
                        active: m.active.insert(tx.client_id, a),
                        disputes: d,
                        log: m.log.push(tx),
                        ..m
                    },
                    Ok(()),
                ),
                Err(e) => (LedgerModel { active: m.active.insert(tx.client_id, acc), ..m }, Err(e)),
            },
            TransactionType::Resolve => match acc.spec_resolve(tx.transaction_id, m.disputes) {
                Ok((a, d)) => (
                    LedgerModel {
                        active: m.active.insert(tx.client_id, a),
                        disputes: d,
                        log: m.log.push(tx),
                        ..m
                    },
                    Ok(()),
                ),
                Err(e) => (LedgerModel { active: m.active.insert(tx.client_id, acc), ..m }, Err(e)),
            },
            TransactionType::Chargeback => match acc.spec_chargeback(
                tx.transaction_id,
                m.disputes,
            ) {
                Ok((a, d)) => (
                    LedgerModel {
                        active: m.active.remove(tx.client_id),
                        locked: m.locked.insert(tx.client_id, a),
                        disputes: d,
                        log: m.log.push(tx),
                    },
                    Ok(()),
                ),
                Err(e) => (LedgerModel { active: m.active.insert(tx.client_id, acc), ..m }, Err(e)),
            },
        }
    }
}

/// The ledger state after applying a whole sequence of transactions in
/// order, each failure swallowed.
pub open spec fn spec_run(m: LedgerModel, txs: Seq<Transaction>) -> LedgerModel
    decreases txs.len(),
{
    if txs.len() == 0 {
        m
    } else {
        spec_run(spec_step(m, txs[0]).0, txs.drop_first())
    }
}

/// The ledger state after validating and applying a whole sequence of raw
/// records in order; records that fail validation are dropped, transactions
/// that fail to apply are swallowed.
pub open spec fn spec_run_records(m: LedgerModel, records: Seq<TransactionRecord>) -> LedgerModel
    decreases records.len(),
{
    if records.len() == 0 {
        m
    } else {
        match Transaction::spec_try_from(records[0]) {
            Ok(t) => spec_run_records(spec_step(m, t).0, records.drop_first()),
            Err(_) => spec_run_records(m, records.drop_first()),
        }
    }
}

/// One ledger step preserves the ledger invariant.
pub proof fn lemma_step_preserves_wf(m: LedgerModel, tx: Transaction)
    requires
        m.wf(),
        tx.valid(),
    ensures
        spec_step(m, tx).0.wf(),
{
}

/// The locked state is terminal: once a client's account is in the locked
/// map, no later transaction — whoever issues it — removes it or alters it.
pub proof fn lemma_locked_is_terminal(m: LedgerModel, tx: Transaction, client_id: u16)
    requires
        m.wf(),
        m.locked.contains_key(client_id),
    ensures
        spec_step(m, tx).0.locked.contains_key(client_id),
        spec_step(m, tx).0.locked[client_id] == m.locked[client_id],
{
}

/// The transaction log is strictly append-only: a step either leaves it
/// unchanged (the transaction was rejected) or appends exactly the applied
/// transaction (it succeeded).
pub proof fn lemma_log_append_only(m: LedgerModel, tx: Transaction)
    ensures
        spec_step(m, tx).1 is Ok ==> spec_step(m, tx).0.log == m.log.push(tx),
        spec_step(m, tx).1 is Err ==> spec_step(m, tx).0.log == m.log,
{
}

impl Ledger {
    /// Applies one transaction. Fails with `LockedAccount` when the client's
    /// account is locked; otherwise dispatches to the account operation. On
    /// success the transaction is appended to the log; on failure it is not,
    /// and the ledger is unchanged but for the lazily created account of a
    /// first-seen client.
    pub fn add_tx(&mut self, transaction: Transaction) -> (r: Result<(), TxError>)
        requires
            old(self)@.wf(),
            transaction.valid(),
        ensures
            final(self)@ == spec_step(old(self)@, transaction).0,
            r == spec_step(old(self)@, transaction).1,
            final(self)@.wf(),
    {
        proof {
            lemma_step_preserves_wf(old(self)@, transaction);
        }
        if self.locked_accounts.contains_key(&transaction.client_id) {
            return Err(TxError::LockedAccount);
        }
        let mut account = match self.active_accounts.get(&transaction.client_id) {
            Some(a) => *a,
            None => Account::new(transaction.client_id),
        };
        let result = match transaction.tx_type {
            TransactionType::Deposit { amount } => account.deposit(amount),
            TransactionType::Withdrawal { amount } => account.withdraw(amount),
            TransactionType::Dispute => account.dispute(
                transaction.transaction_id,
                &self.transactions,
                &mut self.disputed_tx_map,
            ),
            TransactionType::Resolve => account.resolve(
                transaction.transaction_id,
                &mut self.disputed_tx_map,
            ),
            TransactionType::Chargeback => account.chargeback(
                transaction.transaction_id,
                &mut self.disputed_tx_map,
            ),
        };
        match result {
            Ok(()) => {
                if account.locked() {
                    self.active_accounts.remove(&transaction.client_id);
                    self.locked_accounts.insert(transaction.client_id, account);
                } else {
                    self.active_accounts.insert(transaction.client_id, account);
                }
                self.transactions.push(transaction);
                Ok(())
            },
            Err(e) => {
                self.active_accounts.insert(transaction.client_id, account);
                Err(e)
            },
        }
    }

    /// Applies each transaction of the sequence in order; a failure on one
    /// transaction is swallowed and processing continues with the next.
    pub fn process_transactions(&mut self, transactions: Vec<Transaction>)
        requires
            old(self)@.wf(),
            forall|i: int| 0 <= i < transactions@.len() ==> (#[trigger] transactions@[i]).valid(),
        ensures
            final(self)@ == spec_run(old(self)@, transactions@),
            final(self)@.wf(),
    {
        proof {
            assert(transactions@.skip(0) =~= transactions@);
        }
        let mut i: usize = 0;
        while i < transactions.len()
            invariant
                self@.wf(),
                i <= transactions@.len(),
                forall|j: int|
                    0 <= j < transactions@.len() ==> (#[trigger] transactions@[j]).valid(),
                spec_run(self@, transactions@.skip(i as int)) == spec_run(
                    old(self)@,
                    transactions@,
                ),
            decreases transactions@.len() - i,
        {
            proof {
                assert(transactions@.skip(i as int)[0] == transactions@[i as int]);
                assert(transactions@.skip(i as int).drop_first() =~= transactions@.skip(
                    i as int + 1,
                ));
            }
            let tx = transactions[i];
            let _ = self.add_tx(tx);
            i += 1;
        }
    }

    /// Validates and applies each raw record of the sequence in order.
    /// Records that fail validation are dropped; transactions that fail to
    /// apply are swallowed. Either way processing continues with the next
    /// record.
    pub fn process_csv_transactions(&mut self, records: Vec<TransactionRecord>)
        requires
            old(self)@.wf(),
        ensures
            final(self)@ == spec_run_records(old(self)@, records@),
            final(self)@.wf(),
    {
        proof {
            assert(records@.skip(0) =~= records@);
        }
        let mut i: usize = 0;
        while i < records.len()
            invariant
                self@.wf(),
                i <= records@.len(),
                spec_run_records(self@, records@.skip(i as int)) == spec_run_records(
                    old(self)@,
                    records@,
                ),
            decreases records@.len() - i,
        {
            proof {
                assert(records@.skip(i as int)[0] == records@[i as int]);
                assert(records@.skip(i as int).drop_first() =~= records@.skip(i as int + 1));
            }
            let record = records[i];
            match Transaction::try_from(record) {
                Ok(tx) => {
                    let _ = self.add_tx(tx);
                },
                Err(_) => {},
            }
            i += 1;
        }
    }

    /// Read-only view of the active-account map.
    pub fn active_accounts(&self) -> (r: &HashMap<u16, Account>)
        ensures
            r@ == self@.active,
    {
        &self.active_accounts
    }

    /// Read-only view of the locked-account map.
    pub fn locked_accounts(&self) -> (r: &HashMap<u16, Account>)
        ensures
            r@ == self@.locked,
    {
        &self.locked_accounts
    }

    /// Read-only view of the full transaction log.
    pub fn transactions(&self) -> (r: &Vec<Transaction>)
        ensures
            r@ == self@.log,
    {
        &self.transactions
    }
}

impl Default for Ledger {
    /// The empty ledger: no accounts, no logged transactions, no open
    /// disputes.
    fn default() -> (r: Ledger)
        ensures
            r@ == LedgerModel::empty(),
            r@.wf(),
    {
        Ledger {
            active_accounts: HashMap::new(),
            locked_accounts: HashMap::new(),
            transactions: Vec::new(),
            disputed_tx_map: HashMap::new(),
        }
    }
}

} // verus!
