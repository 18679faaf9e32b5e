//! Transactions, and the operations on them.

use vstd::prelude::*;
use crate::fields::Pair;
use self::metadata::Metadata;

pub mod annotate;
pub mod get;
pub mod metadata;

verus! {

/// A movement of money on an account.
#[derive(Debug, Clone, PartialEq, Eq)]
pub struct Transaction {
    id: String,
    amount: i64,
    currency: String,
    description: String,
    metadata: Metadata,
}

/// What a [`Transaction`] holds.
pub struct TransactionView {
    pub id: Seq<char>,
    /// The amount in the minor units of the currency; negative for a debit.
    pub amount: int,
    pub currency: Seq<char>,
    pub description: Seq<char>,
    /// The annotations of the transaction, in the order in which they were
    /// received.
    pub metadata: Seq<Pair>,
}

impl View for Transaction {
    type V = TransactionView;

    closed spec fn view(&self) -> TransactionView {
        TransactionView {
            id: self.id@,
            amount: self.amount as int,
            currency: self.currency@,
            description: self.description@,
            metadata: self.metadata@,
        }
    }
}

impl Transaction {
    /// A transaction with the given fields, each kept as it is given.
    pub fn new(
        id: String,
        amount: i64,
        currency: String,
        description: String,
        metadata: Metadata,
    ) -> (transaction: Transaction)
        ensures
            transaction@ == (TransactionView {
                id: id@,
                amount: amount as int,
                currency: currency@,
                description: description@,
                metadata: metadata@,
            }),
    {
        Transaction { id, amount, currency, description, metadata }
    }

    /// The identifier of the transaction.
    #[must_use]
    pub fn id(&self) -> (id: &String)
        ensures
            id@ == self@.id,
    {
        &self.id
    }

    /// The amount in the minor units of the currency; negative for a debit.
    #[must_use]
    pub fn amount(&self) -> (amount: i64)
        ensures
            amount == self@.amount,
    {
        self.amount
    }

    /// The three-letter code of the transaction's currency.
    #[must_use]
    pub fn currency(&self) -> (currency: &String)
        ensures
            currency@ == self@.currency,
    {
        &self.currency
    }

    /// The description of the transaction as the bank recorded it.
    #[must_use]
    pub fn description(&self) -> (description: &String)
        ensures
            description@ == self@.description,
    {
        &self.description
    }

    /// The annotations of the transaction.
    #[must_use]
    pub fn metadata(&self) -> (metadata: &Metadata)
        ensures
            metadata@ == self@.metadata,
    {
        &self.metadata
    }
}

} // verus!
