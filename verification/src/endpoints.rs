//! The operations of the API, and what each of them has to declare.

use vstd::prelude::*;
use crate::fields::{Field, Pair, fields_view};
use crate::http::Method;

pub mod balance;
pub mod feed_items;
pub mod transactions;

verus! {

/// What an operation declares so that it can be executed: its method, where it
/// goes, and what it carries.
///
/// An operation carries at most one body: a type that declares a JSON body
/// declares no form, and the other way round.
pub trait Endpoint {
    /// The method that the operation declares.
    spec fn wire_method(&self) -> Method;

    /// The URL or path that the operation declares.
    spec fn wire_endpoint(&self) -> Seq<char>;

    /// The query parameters that the operation declares, in order.
    spec fn wire_query(&self) -> Seq<Pair>;

    /// The members of the JSON body, in order, if the operation has one.
    spec fn wire_json(&self) -> Option<Seq<Pair>>;

    /// The entries of the form, in order, if the operation has one.
    spec fn wire_form(&self) -> Option<Seq<Pair>>;

    /// No operation declares both a JSON body and a form.
    proof fn at_most_one_body(&self)
        ensures
            self.wire_json() is None || self.wire_form() is None,
    ;

    /// The HTTP method of the operation.
    fn method(&self) -> (method: Method)
        ensures
            method == self.wire_method(),
    ;

    /// Where the request goes: an absolute URL, or a path below the API's base
    /// URL, which starts with `/`.
    fn endpoint(&self) -> (endpoint: &str)
        ensures
            endpoint@ == self.wire_endpoint(),
    ;

    /// The parameters of the query string.
    fn query(&self) -> (query: Vec<Field>)
        ensures
            fields_view(query@) == self.wire_query(),
    ;

    /// The members of the JSON body, for an operation that sends one.
    fn json(&self) -> (json: Option<Vec<Field>>)
        ensures
            match json {
                Some(fields) => self.wire_json() == Some(fields_view(fields@)),
                None => self.wire_json() is None,
            },
    ;

    /// The entries of the form, for an operation that sends one.
    fn form(&self) -> (form: Option<Vec<Field>>)
        ensures
            match form {
                Some(fields) => self.wire_form() == Some(fields_view(fields@)),
                None => self.wire_form() is None,
            },
    ;
}

} // verus!
