use vstd::prelude::*;

use crate::error::TxError;

verus! {

/// Number of fractional digits every amount is rescaled to on construction.
pub const NUM_DECIMAL_PLACES: u32 = 4;

/// Largest count of `10^-NUM_DECIMAL_PLACES` units an amount can hold
/// (a 96-bit unsigned mantissa, `2^96 - 1`).
pub const MAX_AMOUNT_UNITS: u128 = 79228162514264337593543950335;

/// A non-negative decimal amount at a fixed scale: `units` counts
/// `10^-NUM_DECIMAL_PLACES` currency units, so `1.5000` is `units == 15000`.
///
/// Negative balances are structurally unrepresentable; arithmetic that would
/// leave the representable range is an explicit error, never a silent wrap.
#[derive(Debug, Clone, Copy, PartialEq, Eq, PartialOrd, Ord, Structural)]
pub struct PositiveDecimal {
    pub units: u128,
}

impl View for PositiveDecimal {
    type V = nat;

    open spec fn view(&self) -> nat {
        self.units as nat
    }
}

impl PositiveDecimal {
    /// The construction-time invariant: the amount fits the fixed-scale range.
    pub open spec fn valid(self) -> bool {
        self.units <= MAX_AMOUNT_UNITS
    }

    /// Validates a raw amount given in `10^-NUM_DECIMAL_PLACES` units.
    /// Fails with `InvalidAmount` when the value is negative or cannot be
    /// represented at the fixed scale.
    pub fn try_from(units: i128) -> (r: Result<PositiveDecimal, TxError>)
        ensures
            r is Ok <==> 0 <= units <= MAX_AMOUNT_UNITS as i128,
            r matches Ok(p) ==> p@ == units && p.valid(),
            r is Err ==> r == Err::<PositiveDecimal, TxError>(TxError::InvalidAmount),
    {
        if units < 0 {
            return Err(TxError::InvalidAmount);
        }
        let u = units as u128;
        if u <= MAX_AMOUNT_UNITS {
            Ok(PositiveDecimal { units: u })
        } else {
            Err(TxError::InvalidAmount)
        }
    }

    /// The raw unit count, for rendering at fixed 4-decimal precision.
    pub fn units(&self) -> (r: u128)
        ensures
            r == self@,
    {
        self.units
    }

    /// The whole and fractional parts of the amount, for rendering at fixed
    /// `NUM_DECIMAL_PLACES`-digit precision: the value is
    /// `whole.frac` with `frac` printed as four digits.
    pub fn split_units(&self) -> (r: (u128, u64))
        ensures
            r.0 as nat == self@ / 10000,
            r.1 as nat == self@ % 10000,
            r.1 < 10000,
    {
        (self.units / 10000, (self.units % 10000) as u64)
    }

    /// Checked addition. Fails with `InvalidAmount` when the sum would leave
    /// the representable range; otherwise returns exactly `self + other`.
    pub fn checked_add(self, other: PositiveDecimal) -> (r: Result<PositiveDecimal, TxError>)
        ensures
            r is Ok <==> self@ + other@ <= MAX_AMOUNT_UNITS,
            r matches Ok(p) ==> p@ == self@ + other@ && p.valid(),
            r is Err ==> r == Err::<PositiveDecimal, TxError>(TxError::InvalidAmount),
    {
        match self.units.checked_add(other.units) {
            None => Err(TxError::InvalidAmount),
            Some(sum) => {
                if sum <= MAX_AMOUNT_UNITS {
                    Ok(PositiveDecimal { units: sum })
                } else {
                    Err(TxError::InvalidAmount)
                }
            },
        }
    }

    /// Checked subtraction. Fails with `InsufficientFunds` when `other` is
    /// greater than `self`; otherwise returns exactly `self - other`.
    pub fn checked_sub(self, other: PositiveDecimal) -> (r: Result<PositiveDecimal, TxError>)
        ensures
            r is Ok <==> other@ <= self@,
            r matches Ok(p) ==> p@ == self@ - other@,
            r is Err ==> r == Err::<PositiveDecimal, TxError>(TxError::InsufficientFunds),
    {
        if other.units <= self.units {
            Ok(PositiveDecimal { units: self.units - other.units })
        } else {
            Err(TxError::InsufficientFunds)
        }
    }
}

impl Default for PositiveDecimal {
    /// The zero amount.
    fn default() -> (r: Self)
        ensures
            r@ == 0,
            r.valid(),
    {
        PositiveDecimal { units: 0 }
    }
}

/// The five kinds of raw transaction rows.
#[derive(Debug, Clone, Copy, PartialEq, Eq, Structural)]
pub enum TransactionRecordType {
    Deposit,
    Withdrawal,
    Dispute,
    Resolve,
    Chargeback,
}

/// One raw, not yet validated transaction row.
///
/// The amount, when present, is given in `10^-NUM_DECIMAL_PLACES` units and
/// may still be negative or too large; validation turns a raw record into a
/// [`Transaction`] or rejects it with a typed error.
#[derive(Debug, Clone, Copy, PartialEq, Eq)]
pub struct TransactionRecord {
    pub transaction_type: TransactionRecordType,
    pub client_id: u16,
    pub transaction_id: u32,
    pub amount: Option<i128>,
}

/// The validated kind of a client action, with its amount where one applies.
#[derive(Debug, Clone, Copy, PartialEq, Eq, Structural)]
pub enum TransactionType {
    Deposit { amount: PositiveDecimal },
    Withdrawal { amount: PositiveDecimal },
    Dispute,
    Resolve,
    Chargeback,
}

/// A validated, immutable record of one client action.
#[derive(Debug, Clone, Copy, PartialEq, Eq, Structural)]
pub struct Transaction {
    pub client_id: u16,
    pub transaction_id: u32,
    pub tx_type: TransactionType,
}

/// Validation of the optional raw amount of a deposit or withdrawal row:
/// absent is `MissingAmount`; negative or oversized is `InvalidAmount`.
pub open spec fn spec_validate_amount(amount: Option<i128>) -> Result<PositiveDecimal, TxError> {
    match amount {
        None => Err(TxError::MissingAmount),
        Some(u) => if 0 <= u <= MAX_AMOUNT_UNITS as i128 {
            Ok(PositiveDecimal { units: u as u128 })
        } else {
            Err(TxError::InvalidAmount)
        },
    }
}

impl Transaction {
    /// A transaction is valid when its amount, if it carries one, is in range.
    pub open spec fn valid(self) -> bool {
        match self.tx_type {
            TransactionType::Deposit { amount } => amount.valid(),
            TransactionType::Withdrawal { amount } => amount.valid(),
            _ => true,
        }
    }

    pub fn new(client_id: u16, transaction_id: u32, tx_type: TransactionType) -> (t: Transaction)
        ensures
            t == (Transaction { client_id, transaction_id, tx_type }),
    {
        Transaction { client_id, transaction_id, tx_type }
    }

    /// What validating a raw record yields: a deposit or withdrawal needs a
    /// valid amount; the amount of a dispute, resolve or chargeback row is
    /// ignored even when present.
    pub open spec fn spec_try_from(record: TransactionRecord) -> Result<Transaction, TxError> {
        match record.transaction_type {
            TransactionRecordType::Deposit => match spec_validate_amount(record.amount) {
                Ok(amount) => Ok(Transaction {
                    client_id: record.client_id,
                    transaction_id: record.transaction_id,
                    tx_type: TransactionType::Deposit { amount },
                }),
                Err(e) => Err(e),
            },
            TransactionRecordType::Withdrawal => match spec_validate_amount(record.amount) {
                Ok(amount) => Ok(Transaction {
                    client_id: record.client_id,
                    transaction_id: record.transaction_id,
                    tx_type: TransactionType::Withdrawal { amount },
                }),
                Err(e) => Err(e),
            },
            TransactionRecordType::Dispute => Ok(Transaction {
                client_id: record.client_id,
                transaction_id: record.transaction_id,
                tx_type: TransactionType::Dispute,
            }),
            TransactionRecordType::Resolve => Ok(Transaction {
                client_id: record.client_id,
                transaction_id: record.transaction_id,
                tx_type: TransactionType::Resolve,
            }),
            TransactionRecordType::Chargeback => Ok(Transaction {
                client_id: record.client_id,
                transaction_id: record.transaction_id,
                tx_type: TransactionType::Chargeback,
            }),
        }
    }

    /// Validates a raw record into an immutable `Transaction`.
    pub fn try_from(record: TransactionRecord) -> (r: Result<Transaction, TxError>)
        ensures
            r == Transaction::spec_try_from(record),
            r matches Ok(t) ==> t.valid(),
    {
        match record.transaction_type {
            TransactionRecordType::Deposit => match validate_amount(record.amount) {
                Ok(amount) => Ok(Transaction::new(
                    record.client_id,
                    record.transaction_id,
                    TransactionType::Deposit { amount },
                )),
                Err(e) => Err(e),
            },
            TransactionRecordType::Withdrawal => match validate_amount(record.amount) {
                Ok(amount) => Ok(Transaction::new(
                    record.client_id,
                    record.transaction_id,
                    TransactionType::Withdrawal { amount },
                )),
                Err(e) => Err(e),
            },
            TransactionRecordType::Dispute => Ok(Transaction::new(
                record.client_id,
                record.transaction_id,
                TransactionType::Dispute,
            )),
            TransactionRecordType::Resolve => Ok(Transaction::new(
                record.client_id,
                record.transaction_id,
                TransactionType::Resolve,
            )),
            TransactionRecordType::Chargeback => Ok(Transaction::new(
                record.client_id,
                record.transaction_id,
                TransactionType::Chargeback,
            )),
        }
    }
}

/// Validates the optional raw amount of a deposit or withdrawal row.
fn validate_amount(amount: Option<i128>) -> (r: Result<PositiveDecimal, TxError>)
    ensures
        r == spec_validate_amount(amount),
        r matches Ok(p) ==> p.valid(),
{
    match amount {
        None => Err(TxError::MissingAmount),
        Some(u) => PositiveDecimal::try_from(u),
    }
}

/// The first transaction in chronological (log) order carrying the given id,
/// if any. The log must be chronologically ordered for dispute resolution to
/// pick the intended transaction.
pub open spec fn find_transaction(log: Seq<Transaction>, transaction_id: u32) -> Option<Transaction>
    decreases log.len(),
{
    if log.len() == 0 {
        None
    } else if log[0].transaction_id == transaction_id {
        Some(log[0])
    } else {
        find_transaction(log.drop_first(), transaction_id)
    }
}

/// Scans the log front to back for the first transaction with the given id.
pub fn find_in_log(log: &Vec<Transaction>, transaction_id: u32) -> (r: Option<Transaction>)
    ensures
        r == find_transaction(log@, transaction_id),
{
    let mut i: usize = 0;
    proof {
        assert(log@.skip(0) =~= log@);
    }
    while i < log.len()
        invariant
            i <= log@.len(),
            find_transaction(log@, transaction_id) == find_transaction(
                log@.skip(i as int),
                transaction_id,
            ),
        decreases log@.len() - i,
    {
        proof {
            assert(log@.skip(i as int)[0] == log@[i as int]);
        }
        if log[i].transaction_id == transaction_id {
            return Some(log[i]);
        }
        proof {
            assert(log@.skip(i as int).drop_first() =~= log@.skip(i as int + 1));
        }
        i += 1;
    }
    None
}

} // verus!
