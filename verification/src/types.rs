//! Transactions as they arrive, and the outcome kept of each transfer.

use vstd::prelude::*;
use crate::amount::{viewed, Amount, AmountView};
use crate::error::CliError;

verus! {

pub type ClientId = u16;

pub type TxId = u32;

/// The most fractional digits an incoming amount may have.
pub const MAX_PRECISION: u32 = 4;

#[derive(Debug, Clone, Copy, PartialEq, Eq, Structural)]
pub enum TransactionType {
    Deposit,
    Withdrawal,
    Dispute,
    Resolve,
    ChargeBack,
}

impl TransactionType {
    /// Deposits and withdrawals move money and carry an amount; the other
    /// three refer to an earlier transfer and carry none.
    pub open spec fn is_transfer(self) -> bool {
        self is Deposit || self is Withdrawal
    }

    /// Whether this is a deposit or a withdrawal. The other three look an
    /// earlier transfer up in the outcome log.
    pub fn moves_money(&self) -> (r: bool)
        ensures
            r == self.is_transfer(),
    {
        match self {
            TransactionType::Deposit | TransactionType::Withdrawal => true,
            _ => false,
        }
    }
}

/// One row of the input.
#[derive(Debug)]
pub struct Transaction {
    pub tx_type: TransactionType,
    pub client: ClientId,
    pub tx: TxId,
    pub amount: Option<Amount>,
}

impl Transaction {
    /// The amount, seen as a number.
    pub open spec fn spec_amount(self) -> Option<AmountView> {
        viewed(self.amount)
    }

    /// The error of the first structural rule that the transaction breaks,
    /// the rules taken in this order: a transfer without an amount, a
    /// reference with an amount, a negative amount, an amount with more than
    /// four fractional digits.
    pub open spec fn defect(self) -> Option<CliError> {
        if self.tx_type.is_transfer() && self.amount is None {
            Some(CliError::NullWire)
        } else if !self.tx_type.is_transfer() && self.amount is Some {
            Some(CliError::SomeDispute)
        } else if self.spec_amount() matches Some(a) && a.negative {
            Some(CliError::NegativeWire)
        } else if self.spec_amount() matches Some(a) && a.scale > MAX_PRECISION {
            Some(CliError::BigPrecision)
        } else {
            None
        }
    }

    /// Checks the transaction against the structural rules, before anything
    /// is changed on its account.
    pub fn validate(&self) -> (r: Result<(), CliError>)
        ensures
            match self.defect() {
                None => r is Ok,
                Some(defect) => r matches Err(e) && e == defect,
            },
    {
        let transfer = self.tx_type.moves_money();
        if transfer && self.amount.is_none() {
            return Err(CliError::NullWire);
        }
        if !transfer && self.amount.is_some() {
            return Err(CliError::SomeDispute);
        }
        if let Some(a) = &self.amount {
            if a.is_sign_negative() {
                return Err(CliError::NegativeWire);
            }
            if a.scale() > MAX_PRECISION {
                return Err(CliError::BigPrecision);
            }
        }
        Ok(())
    }
}

/// What an outcome record says, with its amount seen as a number.
pub struct RecordView {
    /// Whether the transfer was a withdrawal rather than a deposit.
    pub withdrawal: bool,
    pub client: ClientId,
    pub amount: AmountView,
    /// Whether the transfer changed the balance when it was submitted.
    pub succeeded: bool,
    /// Whether a dispute is open on the transfer.
    pub disputed: bool,
}

impl RecordView {
    /// The amount that a dispute can claim: none for a transfer that failed.
    pub open spec fn successful_amount(self) -> Option<AmountView> {
        if self.succeeded {
            Some(self.amount)
        } else {
            None
        }
    }

    /// The factor by which a dispute moves held funds: `1.0` for a deposit,
    /// `-1.0` for a withdrawal.
    pub open spec fn direction(self) -> AmountView {
        AmountView { negative: self.withdrawal, magnitude: 10, scale: 1 }
    }

    pub open spec fn with_disputed(self, flag: bool) -> RecordView {
        RecordView { disputed: flag, ..self }
    }
}

/// The outcome of a deposit or withdrawal, kept under its transaction id so
/// that later disputes can find it.
#[derive(Debug, Clone, Copy)]
pub enum TransactionRecord {
    Deposit { client: ClientId, amount: Amount, succeeded: bool, disputed: bool },
    Withdrawal { client: ClientId, amount: Amount, succeeded: bool, disputed: bool },
}

impl View for TransactionRecord {
    type V = RecordView;

    open spec fn view(&self) -> RecordView {
        match *self {
            TransactionRecord::Deposit { client, amount, succeeded, disputed } => RecordView {
                withdrawal: false,
                client,
                amount: amount@,
                succeeded,
                disputed,
            },
            TransactionRecord::Withdrawal { client, amount, succeeded, disputed } => RecordView {
                withdrawal: true,
                client,
                amount: amount@,
                succeeded,
                disputed,
            },
        }
    }
}

impl TransactionRecord {
    /// The record of a deposit just submitted: not disputed.
    pub fn deposit(client: ClientId, amount: Amount, succeeded: bool) -> (r: Self)
        ensures
            r@ == (RecordView {
                withdrawal: false,
                client,
                amount: amount@,
                succeeded,
                disputed: false,
            }),
    {
        Self::Deposit { client, amount, succeeded, disputed: false }
    }

    /// The record of a withdrawal just submitted: not disputed.
    pub fn withdrawal(client: ClientId, amount: Amount, succeeded: bool) -> (r: Self)
        ensures
            r@ == (RecordView {
                withdrawal: true,
                client,
                amount: amount@,
                succeeded,
                disputed: false,
            }),
    {
        Self::Withdrawal { client, amount, succeeded, disputed: false }
    }

    pub fn client(&self) -> (r: ClientId)
        ensures
            r == self@.client,
    {
        match self {
            Self::Deposit { client, .. } => *client,
            Self::Withdrawal { client, .. } => *client,
        }
    }

    /// The amount of the transfer if it succeeded; a failed transfer has
    /// nothing to dispute.
    pub fn successful_amount(&self) -> (r: Option<Amount>)
        ensures
            viewed(r) == self@.successful_amount(),
    {
        match self {
            Self::Deposit { amount, succeeded: true, .. } => Some(*amount),
            Self::Withdrawal { amount, succeeded: true, .. } => Some(*amount),
            _ => None,
        }
    }

    pub fn disputed(&self) -> (r: bool)
        ensures
            r == self@.disputed,
    {
        match self {
            Self::Deposit { disputed, .. } => *disputed,
            Self::Withdrawal { disputed, .. } => *disputed,
        }
    }

    /// `1.0` for a deposit, `-1.0` for a withdrawal. The record is left as
    /// it was.
    pub fn direction(&mut self) -> (r: Amount)
        ensures
            r@ == old(self)@.direction(),
            *final(self) == *old(self),
    {
        match self {
            Self::Deposit { .. } => Amount::one(),
            Self::Withdrawal { .. } => Amount::minus_one(),
        }
    }

    /// Opens a dispute on the transfer.
    pub fn dispute(&mut self)
        ensures
            final(self)@ == old(self)@.with_disputed(true),
    {
        match self {
            Self::Deposit { disputed, .. } => *disputed = true,
            Self::Withdrawal { disputed, .. } => *disputed = true,
        }
    }

    /// Closes the dispute on the transfer.
    pub fn resolve_dispute(&mut self)
        ensures
            final(self)@ == old(self)@.with_disputed(false),
    {
        match self {
            Self::Deposit { disputed, .. } => *disputed = false,
            Self::Withdrawal { disputed, .. } => *disputed = false,
        }
    }
}

} // verus!
