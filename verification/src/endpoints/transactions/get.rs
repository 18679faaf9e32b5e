//! The response to a request for one transaction.

use vstd::prelude::*;
use vstd::std_specs::convert::FromSpecImpl;
use crate::endpoints::transactions::Transaction;

verus! {

/// The envelope in which the server sends one transaction.
#[derive(Debug, Clone, PartialEq, Eq)]
pub struct Response {
    pub transaction: Transaction,
}

impl From<Response> for Transaction {
    /// Takes the transaction out of its envelope.
    fn from(response: Response) -> (transaction: Transaction) {
        response.transaction
    }
}

impl FromSpecImpl<Response> for Transaction {
    open spec fn obeys_from_spec() -> bool {
        true
    }

    open spec fn from_spec(response: Response) -> Transaction {
        response.transaction
    }
}

} // verus!
