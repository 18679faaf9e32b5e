//! Balance endpoint

use vstd::prelude::*;
use crate::client::{BASE_URL, Client, bearer, build_request, request_for, success_result};
use crate::endpoints::Endpoint;
use crate::error::Error;
use crate::fields::{Field, Pair, fields_view};
use crate::http::{BodyView, HttpRequest, Method};

verus! {

/// The balance of a Monzo account.
#[derive(Debug, Clone, PartialEq, Eq)]
pub struct Balance {
    balance: i64,
    total_balance: i64,
    currency: String,
    spend_today: i64,
}

/// What a [`Balance`] holds.
pub struct BalanceView {
    /// The account balance, in the minor units of the currency.
    pub balance: int,
    /// The total account balance, in the minor units of the currency.
    pub total_balance: int,
    /// The three-letter code of the account's currency.
    pub currency: Seq<char>,
    /// What has been spent so far this calendar day.
    pub spend_today: int,
}

impl View for Balance {
    type V = BalanceView;

    closed spec fn view(&self) -> BalanceView {
        BalanceView {
            balance: self.balance as int,
            total_balance: self.total_balance as int,
            currency: self.currency@,
            spend_today: self.spend_today as int,
        }
    }
}

impl Balance {
    /// A balance with the given fields, each kept as it is given.
    pub fn new(balance: i64, total_balance: i64, currency: String, spend_today: i64) -> (result:
        Balance)
        ensures
            result@ == (BalanceView {
                balance: balance as int,
                total_balance: total_balance as int,
                currency: currency@,
                spend_today: spend_today as int,
            }),
    {
        Balance { balance, total_balance, currency, spend_today }
    }

    /// The account balance, in the minor units of the listed currency: for
    /// GBP, the balance is in pence.
    #[must_use]
    pub fn balance(&self) -> (balance: i64)
        ensures
            balance == self@.balance,
    {
        self.balance
    }

    /// The total account balance, as the server reports it beside the balance.
    #[must_use]
    pub fn total_balance(&self) -> (total_balance: i64)
        ensures
            total_balance == self@.total_balance,
    {
        self.total_balance
    }

    /// The three-letter currency code of the account.
    #[must_use]
    pub fn currency(&self) -> (currency: &String)
        ensures
            currency@ == self@.currency,
    {
        &self.currency
    }

    /// The total expenditure so far this calendar day.
    #[must_use]
    pub fn spend_today(&self) -> (spend_today: i64)
        ensures
            spend_today == self@.spend_today,
    {
        self.spend_today
    }
}

/// A request for the balance of one account.
#[derive(Debug)]
#[must_use]
pub struct GetBalance<'a> {
    client: &'a Client,
    account_id: &'a str,
}

/// What a [`GetBalance`] holds.
pub struct GetBalanceView {
    /// The access token of the client that the request was made from.
    pub token: Seq<char>,
    /// The account whose balance is asked for.
    pub account_id: Seq<char>,
}

impl<'a> View for GetBalance<'a> {
    type V = GetBalanceView;

    closed spec fn view(&self) -> GetBalanceView {
        GetBalanceView { token: self.client.token(), account_id: self.account_id@ }
    }
}

impl<'a> Endpoint for GetBalance<'a> {
    open spec fn wire_method(&self) -> Method {
        Method::Get
    }

    open spec fn wire_endpoint(&self) -> Seq<char> {
        "/balance"@
    }

    open spec fn wire_query(&self) -> Seq<Pair> {
        seq![("account_id"@, self@.account_id)]
    }

    open spec fn wire_json(&self) -> Option<Seq<Pair>> {
        None
    }

    open spec fn wire_form(&self) -> Option<Seq<Pair>> {
        None
    }

    proof fn at_most_one_body(&self) {
    }

    fn method(&self) -> (method: Method) {
        Method::Get
    }

    fn endpoint(&self) -> (endpoint: &str) {
        "/balance"
    }

    fn query(&self) -> (query: Vec<Field>) {
        let mut query: Vec<Field> = Vec::new();
        query.push(Field::new("account_id", self.account_id));
        query
    }

    fn json(&self) -> (json: Option<Vec<Field>>) {
        None
    }

    fn form(&self) -> (form: Option<Vec<Field>>) {
        None
    }
}

impl<'a> GetBalance<'a> {
    /// A request, on behalf of `client`, for the balance of the account
    /// `account_id`.
    pub fn new(client: &'a Client, account_id: &'a str) -> (request: Self)
        ensures
            request@ == (GetBalanceView { token: client.token(), account_id: account_id@ }),
    {
        GetBalance { client, account_id }
    }

    /// Consumes the request and gives what goes on the wire: a `GET` of
    /// `/balance` below the base URL, with the client's token as the bearer
    /// credential, the account as the one query parameter, and no body.
    pub fn into_request(self) -> (request: HttpRequest)
        ensures
            request@ == request_for(self@.token, &self),
            request@.method == Method::Get,
            request@.url == BASE_URL@ + "/balance"@,
            request@.authorization == bearer(self@.token),
            request@.query == seq![("account_id"@, self@.account_id)],
            request@.body == BodyView::Empty,
    {
        proof {
            reveal_strlit("/balance");
        }
        build_request(self.client, self)
    }
}

/// A balance that was decoded from the body of a success response is what the
/// caller gets: the response handling returns it as it was decoded, so its
/// accessors give the four fields of the body.
pub proof fn decoded_balance_is_returned(raw: Vec<u8>, balance: Balance)
    ensures
        success_result(raw, Ok::<Balance, String>(balance)) == Ok::<Balance, Error>(balance),
{
}

} // verus!
