use vstd::prelude::*;

use std::collections::HashMap;

use crate::error::TxError;
use crate::transaction::{
    find_transaction, PositiveDecimal, Transaction, TransactionType, MAX_AMOUNT_UNITS,
};

verus! {

broadcast use vstd::std_specs::hash::group_hash_axioms;

/// The split of the funds in a client's [`Account`]. The total amount of
/// money is derived by adding `available` and `held`; it is never stored.
#[derive(Debug, Clone, Copy, PartialEq, Eq, Structural)]
pub struct Balance {
    /// Amount ready for immediate spending.
    pub available: PositiveDecimal,
    /// Amount earmarked by open disputes.
    pub held: PositiveDecimal,
}

impl Balance {
    /// Both parts of the balance are within the representable range.
    pub open spec fn valid(self) -> bool {
        self.available.valid() && self.held.valid()
    }

    /// The balance of a freshly created account: nothing available, nothing held.
    pub open spec fn spec_zero() -> Balance {
        Balance {
            available: PositiveDecimal { units: 0 },
            held: PositiveDecimal { units: 0 },
        }
    }

    pub fn available(&self) -> (r: PositiveDecimal)
        ensures
            r == self.available,
    {
        self.available
    }

    pub fn held(&self) -> (r: PositiveDecimal)
        ensures
            r == self.held,
    {
        self.held
    }

    /// The derived total, computed on demand. The sum never silently wraps:
    /// when `available + held` would leave the representable range the
    /// overflow surfaces as an explicit `InvalidAmount` failure.
    pub fn total(&self) -> (r: Result<PositiveDecimal, TxError>)
        ensures
            r is Ok <==> self.available@ + self.held@ <= MAX_AMOUNT_UNITS,
            r matches Ok(t) ==> t@ == self.available@ + self.held@,
            r is Err ==> r == Err::<PositiveDecimal, TxError>(TxError::InvalidAmount),
    {
        self.available.checked_add(self.held)
    }
}

impl Default for Balance {
    fn default() -> (r: Self)
        ensures
            r == Balance::spec_zero(),
    {
        Balance { available: PositiveDecimal { units: 0 }, held: PositiveDecimal { units: 0 } }
    }
}

/// A client account, in exactly one of two disjoint states. An `Active`
/// account processes every transaction kind; a `Locked` account — the result
/// of a successful chargeback — is terminal and rejects every operation.
#[derive(Debug, Clone, Copy, PartialEq, Eq, Structural)]
pub enum Account {
    Active { client_id: u16, balance: Balance },
    Locked { client_id: u16, balance: Balance },
}

impl Account {
    pub open spec fn spec_client_id(self) -> u16 {
        match self {
            Account::Active { client_id, .. } => client_id,
            Account::Locked { client_id, .. } => client_id,
        }
    }

    pub open spec fn spec_balance(self) -> Balance {
        match self {
            Account::Active { balance, .. } => balance,
            Account::Locked { balance, .. } => balance,
        }
    }

    pub open spec fn is_locked(self) -> bool {
        self is Locked
    }

    pub open spec fn valid(self) -> bool {
        self.spec_balance().valid()
    }

    /// A freshly created account: active, with an empty balance.
    pub open spec fn spec_new(client_id: u16) -> Account {
        Account::Active { client_id, balance: Balance::spec_zero() }
    }

    pub fn new(client_id: u16) -> (r: Account)
        ensures
            r == Account::spec_new(client_id),
            r.valid(),
    {
        Account::Active { client_id, balance: Balance::default() }
    }

    pub fn client_id(&self) -> (r: u16)
        ensures
            r == self.spec_client_id(),
    {
        match self {
            Account::Active { client_id, .. } => *client_id,
            Account::Locked { client_id, .. } => *client_id,
        }
    }

    pub fn balance(&self) -> (r: Balance)
        ensures
            r == self.spec_balance(),
    {
        match self {
            Account::Active { balance, .. } => *balance,
            Account::Locked { balance, .. } => *balance,
        }
    }

    pub fn locked(&self) -> (r: bool)
        ensures
            r == self.is_locked(),
    {
        match self {
            Account::Active { .. } => false,
            Account::Locked { .. } => true,
        }
    }

    /// What depositing yields: a locked account rejects the operation; an
    /// active account grows `available` by the amount, unless the sum would
    /// leave the representable range.
    pub open spec fn spec_deposit(self, amount: PositiveDecimal) -> Result<Account, TxError> {
        match self {
            Account::Locked { .. } => Err(TxError::LockedAccount),
            Account::Active { client_id, balance } => {
                if balance.available@ + amount@ <= MAX_AMOUNT_UNITS {
                    Ok(
                        Account::Active {
                            client_id,
                            balance: Balance {
                                available: (PositiveDecimal {
                                    units: (balance.available.units + amount.units) as u128,
                                }),
                                held: balance.held,
                            },
                        },
                    )
                } else {
                    Err(TxError::InvalidAmount)
                }
            },
        }
    }

    /// What withdrawing yields: a locked account rejects the operation; an
    /// active account shrinks `available` by the amount, unless the amount
    /// exceeds what is available.
    pub open spec fn spec_withdraw(self, amount: PositiveDecimal) -> Result<Account, TxError> {
        match self {
            Account::Locked { .. } => Err(TxError::LockedAccount),
            Account::Active { client_id, balance } => {
                if amount@ <= balance.available@ {
                    Ok(
                        Account::Active {
                            client_id,
                            balance: Balance {
                                available: (PositiveDecimal {
                                    units: (balance.available.units - amount.units) as u128,
                                }),
                                held: balance.held,
                            },
                        },
                    )
                } else {
                    Err(TxError::InsufficientFunds)
                }
            },
        }
    }

    /// What disputing yields. A dispute of transaction `disputed_tx_id` moves
    /// that transaction's amount from `available` to `held` and records the
    /// hold in the dispute index; it fails when the id is already under
    /// dispute, absent from the log, owned by another client, or names a
    /// transaction that is neither a deposit nor a withdrawal.
    pub open spec fn spec_dispute(
        self,
        disputed_tx_id: u32,
        log: Seq<Transaction>,
        disputes: Map<u32, (u16, PositiveDecimal)>,
    ) -> Result<(Account, Map<u32, (u16, PositiveDecimal)>), TxError> {
        match self {
            Account::Locked { .. } => Err(TxError::LockedAccount),
            Account::Active { client_id, balance } => {
                if disputes.contains_key(disputed_tx_id) {
                    Err(TxError::BadDispute)
                } else {
                    match find_transaction(log, disputed_tx_id) {
                        None => Err(TxError::NotFound),
                        Some(t) => {
                            if t.client_id != client_id {
                                Err(TxError::InsufficientPermission)
                            } else {
                                match t.tx_type {
                                    TransactionType::Deposit { amount }
                                    | TransactionType::Withdrawal { amount } => {
                                        if amount@ > balance.available@ {
                                            Err(TxError::InsufficientFunds)
                                        } else if balance.held@ + amount@ > MAX_AMOUNT_UNITS {
                                            Err(TxError::InvalidAmount)
                                        } else {
                                            Ok(
                                                (
                                                    Account::Active {
                                                        client_id,
                                                        balance: Balance {
                                                            available: (PositiveDecimal {
                                                                units: (balance.available.units
                                                                    - amount.units) as u128,
                                                            }),
                                                            held: (PositiveDecimal {
                                                                units: (balance.held.units
                                                                    + amount.units) as u128,
                                                            }),
                                                        },
                                                    },
                                                    disputes.insert(
                                                        disputed_tx_id,
                                                        (client_id, amount),
                                                    ),
                                                ),
                                            )
                                        }
                                    },
                                    _ => Err(TxError::BadDispute),
                                }
                            }
                        },
                    }
                }
            },
        }
    }

    /// What resolving yields: the indexed amount moves from `held` back to
    /// `available` and the index entry disappears; it fails when the id is
    /// not under dispute or is owned by another client.
    pub open spec fn spec_resolve(
        self,
        transaction_id: u32,
        disputes: Map<u32, (u16, PositiveDecimal)>,
    ) -> Result<(Account, Map<u32, (u16, PositiveDecimal)>), TxError> {
        match self {
            Account::Locked { .. } => Err(TxError::LockedAccount),
            Account::Active { client_id, balance } => {
                if !disputes.contains_key(transaction_id) {
                    Err(TxError::NotFound)
                } else {
                    let (owner, amount) = disputes[transaction_id];
                    if owner != client_id {
                        Err(TxError::InsufficientPermission)
                    } else if balance.available@ + amount@ > MAX_AMOUNT_UNITS {
                        Err(TxError::InvalidAmount)
                    } else if amount@ > balance.held@ {
                        Err(TxError::InsufficientFunds)
                    } else {
                        Ok(
                            (
                                Account::Active {
                                    client_id,
                                    balance: Balance {
                                        available: (PositiveDecimal {
                                            units: (balance.available.units + amount.units)
                                                as u128,
                                        }),
                                        held: (PositiveDecimal {
                                            units: (balance.held.units - amount.units) as u128,
                                        }),
                                    },
                                },
                                disputes.remove(transaction_id),
                            ),
                        )
                    }
                }
            },
        }
    }

    /// What a chargeback yields: the indexed amount leaves `held` for good,
    /// the index entry disappears, and the account becomes `Locked`; it fails
    /// under the same conditions as a resolve, or when `held` cannot cover
    /// the indexed amount.
    pub open spec fn spec_chargeback(
        self,
        transaction_id: u32,
        disputes: Map<u32, (u16, PositiveDecimal)>,
    ) -> Result<(Account, Map<u32, (u16, PositiveDecimal)>), TxError> {
        match self {
            Account::Locked { .. } => Err(TxError::LockedAccount),
            Account::Active { client_id, balance } => {
                if !disputes.contains_key(transaction_id) {
                    Err(TxError::NotFound)
                } else {
                    let (owner, amount) = disputes[transaction_id];
                    if owner != client_id {
                        Err(TxError::InsufficientPermission)
                    } else if amount@ > balance.held@ {
                        Err(TxError::InsufficientFunds)
                    } else {
                        Ok(
                            (
                                Account::Locked {
                                    client_id,
                                    balance: Balance {
                                        available: balance.available,
                                        held: (PositiveDecimal {
                                            units: (balance.held.units - amount.units) as u128,
                                        }),
                                    },
                                },
                                disputes.remove(transaction_id),
                            ),
                        )
                    }
                }
            },
        }
    }

    /// Adds `amount` to the available funds. Fails on a locked account or
    /// when the sum would leave the representable range; the account is left
    /// unmodified on failure.
    pub fn deposit(&mut self, amount: PositiveDecimal) -> (r: Result<(), TxError>)
        requires
            old(self).valid(),
            amount.valid(),
        ensures
            r is Ok <==> old(self).spec_deposit(amount) is Ok,
            r is Ok ==> *final(self) == old(self).spec_deposit(amount)->Ok_0,
            r matches Err(e) ==> *final(self) == *old(self) && Err::<Account, TxError>(e)
                == old(self).spec_deposit(amount),
            final(self).valid(),
    {
        let (client_id, balance) = match self {
            Account::Locked { .. } => {
                return Err(TxError::LockedAccount);
            },
            Account::Active { client_id, balance } => (*client_id, *balance),
        };
        match balance.available.checked_add(amount) {
            Err(e) => Err(e),
            Ok(new_available) => {
                *self = Account::Active {
                    client_id,
                    balance: Balance { available: new_available, held: balance.held },
                };
                Ok(())
            },
        }
    }

    /// Removes `amount` from the available funds. Fails on a locked account
    /// or when the amount exceeds what is available; the account is left
    /// unmodified on failure.
    pub fn withdraw(&mut self, amount: PositiveDecimal) -> (r: Result<(), TxError>)
        requires
            old(self).valid(),
            amount.valid(),
        ensures
            r is Ok <==> old(self).spec_withdraw(amount) is Ok,
            r is Ok ==> *final(self) == old(self).spec_withdraw(amount)->Ok_0,
            r matches Err(e) ==> *final(self) == *old(self) && Err::<Account, TxError>(e)
                == old(self).spec_withdraw(amount),
            final(self).valid(),
    {
        let (client_id, balance) = match self {
            Account::Locked { .. } => {
                return Err(TxError::LockedAccount);
            },
            Account::Active { client_id, balance } => (*client_id, *balance),
        };
        match balance.available.checked_sub(amount) {
            Err(e) => Err(e),
            Ok(new_available) => {
                *self = Account::Active {
                    client_id,
                    balance: Balance { available: new_available, held: balance.held },
                };
                Ok(())
            },
        }
    }

    /// Opens a dispute against the transaction `disputed_tx_id`, searching
    /// `transaction_log` for the first chronological match. On success the
    /// disputed amount moves from `available` to `held` and the hold is
    /// recorded in `disputed_tx_map`; on failure both the account and the
    /// index are left unmodified.
    pub fn dispute(
        &mut self,
        disputed_tx_id: u32,
        transaction_log: &Vec<Transaction>,
        disputed_tx_map: &mut HashMap<u32, (u16, PositiveDecimal)>,
    ) -> (r: Result<(), TxError>)
        requires
            old(self).valid(),
            forall|i: int|
                0 <= i < transaction_log@.len() ==> (#[trigger] transaction_log@[i]).valid(),
        ensures
            r is Ok <==> old(self).spec_dispute(
                disputed_tx_id,
                transaction_log@,
                old(disputed_tx_map)@,
            ) is Ok,
            r is Ok ==> ({
                let (a, d) = old(self).spec_dispute(
                    disputed_tx_id,
                    transaction_log@,
                    old(disputed_tx_map)@,
                )->Ok_0;
                *final(self) == a && final(disputed_tx_map)@ == d
            }),
            r matches Err(e) ==> *final(self) == *old(self) && final(disputed_tx_map)@ == old(
                disputed_tx_map,
            )@ && Err::<(Account, Map<u32, (u16, PositiveDecimal)>), TxError>(e) == old(
                self,
            ).spec_dispute(disputed_tx_id, transaction_log@, old(disputed_tx_map)@),
            final(self).valid(),
    {
        let (client_id, balance) = match self {
            Account::Locked { .. } => {
                return Err(TxError::LockedAccount);
            },
            Account::Active { client_id, balance } => (*client_id, *balance),
        };
        if disputed_tx_map.contains_key(&disputed_tx_id) {
            return Err(TxError::BadDispute);
        }
        let found = crate::transaction::find_in_log(transaction_log, disputed_tx_id);
        let t = match found {
            None => {
                return Err(TxError::NotFound);
            },
            Some(t) => t,
        };
        if t.client_id != client_id {
            return Err(TxError::InsufficientPermission);
        }
        let amount = match t.tx_type {
            TransactionType::Deposit { amount } => amount,
            TransactionType::Withdrawal { amount } => amount,
            _ => {
                return Err(TxError::BadDispute);
            },
        };
        proof {
            lemma_find_transaction_valid(transaction_log@, disputed_tx_id);
        }
        // Compute both new parts before committing either, so a failure
        // leaves the account unmodified.
        let new_available = match balance.available.checked_sub(amount) {
            Err(e) => {
                return Err(e);
            },
            Ok(v) => v,
        };
        let new_held = match balance.held.checked_add(amount) {
            Err(e) => {
                return Err(e);
            },
            Ok(v) => v,
        };
        *self = Account::Active {
            client_id,
            balance: Balance { available: new_available, held: new_held },
        };
        disputed_tx_map.insert(disputed_tx_id, (client_id, amount));
        Ok(())
    }

    /// Closes the dispute on `transaction_id` in the client's favour: the
    /// indexed amount moves from `held` back to `available` and the index
    /// entry is removed. On failure both the account and the index are left
    /// unmodified.
    pub fn resolve(
        &mut self,
        transaction_id: u32,
        disputed_tx_map: &mut HashMap<u32, (u16, PositiveDecimal)>,
    ) -> (r: Result<(), TxError>)
        requires
            old(self).valid(),
            forall|t: u32|
                old(disputed_tx_map)@.contains_key(t) ==> (#[trigger] old(
                    disputed_tx_map,
                )@[t]).1.valid(),
        ensures
            r is Ok <==> old(self).spec_resolve(transaction_id, old(disputed_tx_map)@) is Ok,
            r is Ok ==> ({
                let (a, d) = old(self).spec_resolve(transaction_id, old(disputed_tx_map)@)->Ok_0;
                *final(self) == a && final(disputed_tx_map)@ == d
            }),
            r matches Err(e) ==> *final(self) == *old(self) && final(disputed_tx_map)@ == old(
                disputed_tx_map,
            )@ && Err::<(Account, Map<u32, (u16, PositiveDecimal)>), TxError>(e) == old(
                self,
            ).spec_resolve(transaction_id, old(disputed_tx_map)@),
            final(self).valid(),
    {
        let (client_id, balance) = match self {
            Account::Locked { .. } => {
                return Err(TxError::LockedAccount);
            },
            Account::Active { client_id, balance } => (*client_id, *balance),
        };
        let (owner, amount) = match disputed_tx_map.get(&transaction_id) {
            None => {
                return Err(TxError::NotFound);
            },
            Some(entry) => *entry,
        };
        if owner != client_id {
            return Err(TxError::InsufficientPermission);
        }
        // Compute both new parts before committing either, so a failure
        // leaves the account unmodified.
        let new_available = match balance.available.checked_add(amount) {
            Err(e) => {
                return Err(e);
            },
            Ok(v) => v,
        };
        let new_held = match balance.held.checked_sub(amount) {
            Err(e) => {
                return Err(e);
            },
            Ok(v) => v,
        };
        *self = Account::Active {
            client_id,
            balance: Balance { available: new_available, held: new_held },
        };
        disputed_tx_map.remove(&transaction_id);
        Ok(())
    }

    /// Closes the dispute on `transaction_id` against the client: the indexed
    /// amount leaves `held` for good and the account becomes `Locked`. If the
    /// chargeback fails for any reason, the account remains `Active` with
    /// identical identity and balance, and the index is left unmodified.
    pub fn chargeback(
        &mut self,
        transaction_id: u32,
        disputed_tx_map: &mut HashMap<u32, (u16, PositiveDecimal)>,
    ) -> (r: Result<(), TxError>)
        requires
            old(self).valid(),
        ensures
            r is Ok <==> old(self).spec_chargeback(transaction_id, old(disputed_tx_map)@) is Ok,
            r is Ok ==> ({
                let (a, d) = old(self).spec_chargeback(
                    transaction_id,
                    old(disputed_tx_map)@,
                )->Ok_0;
                *final(self) == a && final(disputed_tx_map)@ == d
            }),
            r matches Err(e) ==> *final(self) == *old(self) && final(disputed_tx_map)@ == old(
                disputed_tx_map,
            )@ && Err::<(Account, Map<u32, (u16, PositiveDecimal)>), TxError>(e) == old(
                self,
            ).spec_chargeback(transaction_id, old(disputed_tx_map)@),
            final(self).valid(),
    {
        let (client_id, balance) = match self {
            Account::Locked { .. } => {
                return Err(TxError::LockedAccount);
            },
            Account::Active { client_id, balance } => (*client_id, *balance),
        };
        let (owner, amount) = match disputed_tx_map.get(&transaction_id) {
            None => {
                return Err(TxError::NotFound);
            },
            Some(entry) => *entry,
        };
        if owner != client_id {
            return Err(TxError::InsufficientPermission);
        }
        let new_held = match balance.held.checked_sub(amount) {
            Err(e) => {
                return Err(e);
            },
            Ok(v) => v,
        };
        *self = Account::Locked {
            client_id,
            balance: Balance { available: balance.available, held: new_held },
        };
        disputed_tx_map.remove(&transaction_id);
        Ok(())
    }
}

/// One output record for an account: the derived `total` is computed on
/// demand, never stored.
#[derive(Debug, Clone, Copy, PartialEq, Eq, Structural)]
pub struct AccountSnapshot {
    pub client_id: u16,
    pub available: PositiveDecimal,
    pub held: PositiveDecimal,
    pub total: PositiveDecimal,
    pub locked: bool,
}

impl Account {
    /// The account's output record. Fails the whole snapshot with
    /// `InvalidAmount` when the derived total would leave the representable
    /// range — an explicit output-time failure, never a truncated value.
    pub fn snapshot(&self) -> (r: Result<AccountSnapshot, TxError>)
        ensures
            r is Ok <==> self.spec_balance().available@ + self.spec_balance().held@
                <= MAX_AMOUNT_UNITS,
            r matches Ok(s) ==> s == (AccountSnapshot {
                client_id: self.spec_client_id(),
                available: self.spec_balance().available,
                held: self.spec_balance().held,
                total: (PositiveDecimal {
                    units: (self.spec_balance().available.units + self.spec_balance().held.units)
                        as u128,
                }),
                locked: self.is_locked(),
            }),
            r is Err ==> r == Err::<AccountSnapshot, TxError>(TxError::InvalidAmount),
    {
        let balance = self.balance();
        match balance.total() {
            Err(e) => Err(e),
            Ok(total) => Ok(
                AccountSnapshot {
                    client_id: self.client_id(),
                    available: balance.available,
                    held: balance.held,
                    total,
                    locked: self.locked(),
                },
            ),
        }
    }
}

/// The transaction a dispute finds in an all-valid log is itself valid.
proof fn lemma_find_transaction_valid(log: Seq<Transaction>, transaction_id: u32)
    requires
        forall|i: int| 0 <= i < log.len() ==> (#[trigger] log[i]).valid(),
    ensures
        find_transaction(log, transaction_id) matches Some(t) ==> t.valid(),
    decreases log.len(),
{
    if log.len() > 0 && log[0].transaction_id != transaction_id {
        assert(forall|i: int|
            0 <= i < log.drop_first().len() ==> (#[trigger] log.drop_first()[i]) == log[i + 1]);
        lemma_find_transaction_valid(log.drop_first(), transaction_id);
    }
}

/// Round trip: depositing a valid amount and then withdrawing the same
/// amount returns the account to exactly its original state — in particular
/// the available funds are restored.
pub proof fn lemma_deposit_withdraw_round_trip(account: Account, amount: PositiveDecimal)
    requires
        account.valid(),
        amount.valid(),
        account.spec_deposit(amount) is Ok,
    ensures
        account.spec_deposit(amount)->Ok_0.spec_withdraw(amount) is Ok,
        account.spec_deposit(amount)->Ok_0.spec_withdraw(amount)->Ok_0 == account,
        account.spec_deposit(amount)->Ok_0.spec_withdraw(
            amount,
        )->Ok_0.spec_balance().available == account.spec_balance().available,
{
}

/// A transaction is disputed at most once concurrently: after a successful
/// dispute of `disputed_tx_id`, a second dispute of the same id — by any
/// account, against any log — fails with `BadDispute` until a resolve or
/// chargeback removes the index entry.
pub proof fn lemma_dispute_at_most_once(
    account: Account,
    disputed_tx_id: u32,
    log: Seq<Transaction>,
    disputes: Map<u32, (u16, PositiveDecimal)>,
)
    requires
        account.spec_dispute(disputed_tx_id, log, disputes) is Ok,
    ensures
        forall|account2: Account, log2: Seq<Transaction>|
            account2 is Active ==> #[trigger] account2.spec_dispute(
                disputed_tx_id,
                log2,
                account.spec_dispute(disputed_tx_id, log, disputes)->Ok_0.1,
            ) == Err::<(Account, Map<u32, (u16, PositiveDecimal)>), TxError>(TxError::BadDispute),
{
}

/// A dispute or a resolve only moves funds between `available` and `held`:
/// the sum of the two is conserved. A successful chargeback removes exactly
/// the disputed amount from that sum.
pub proof fn lemma_dispute_lifecycle_totals(
    account: Account,
    transaction_id: u32,
    log: Seq<Transaction>,
    disputes: Map<u32, (u16, PositiveDecimal)>,
)
    ensures
        account.spec_dispute(transaction_id, log, disputes) matches Ok((a, _))
            ==> a.spec_balance().available@ + a.spec_balance().held@
            == account.spec_balance().available@ + account.spec_balance().held@,
        account.spec_resolve(transaction_id, disputes) matches Ok((a, _))
            ==> a.spec_balance().available@ + a.spec_balance().held@
            == account.spec_balance().available@ + account.spec_balance().held@,
        account.spec_chargeback(transaction_id, disputes) matches Ok((a, _))
            ==> account.spec_balance().available@ + account.spec_balance().held@
            == a.spec_balance().available@ + a.spec_balance().held@
                + disputes[transaction_id].1@,
{
}

/// A locked account is a dead end: every operation fails with
/// `LockedAccount`. Together with the operations' contracts — which leave
/// the account unmodified on every failure — the balance of a locked account
/// can never change.
pub proof fn lemma_locked_account_rejects_all(
    account: Account,
    amount: PositiveDecimal,
    transaction_id: u32,
    log: Seq<Transaction>,
    disputes: Map<u32, (u16, PositiveDecimal)>,
)
    requires
        account is Locked,
    ensures
        account.spec_deposit(amount) == Err::<Account, TxError>(TxError::LockedAccount),
        account.spec_withdraw(amount) == Err::<Account, TxError>(TxError::LockedAccount),
        account.spec_dispute(transaction_id, log, disputes) == Err::<
            (Account, Map<u32, (u16, PositiveDecimal)>),
            TxError,
        >(TxError::LockedAccount),
        account.spec_resolve(transaction_id, disputes) == Err::<
            (Account, Map<u32, (u16, PositiveDecimal)>),
            TxError,
        >(TxError::LockedAccount),
        account.spec_chargeback(transaction_id, disputes) == Err::<
            (Account, Map<u32, (u16, PositiveDecimal)>),
            TxError,
        >(TxError::LockedAccount),
{
}

} // verus!
