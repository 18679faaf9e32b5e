//! Annotate a transaction.

use vstd::prelude::*;
use crate::client::{BASE_URL, Client, bearer, build_request, failure_error, handle_response,
    request_for, resolve_url, success_result};
use crate::endpoints::Endpoint;
use crate::endpoints::transactions::Transaction;
use crate::endpoints::transactions::get::Response;
use crate::endpoints::transactions::metadata::Metadata;
use crate::error::{Error, ErrorBody};
use crate::fields::{Field, Pair, copy_fields, distinct_names, fields_view};
use crate::http::{BodyView, HttpRequest, HttpResponse, Method, is_success};

verus! {

/// A request to annotate a specific transaction.
///
/// The annotations travel as a form, each under the key that the API reads
/// metadata from.
#[derive(Debug)]
#[must_use]
pub struct Request<'a> {
    client: &'a Client,
    endpoint: String,
    form: Vec<Field>,
}

/// What a [`Request`] holds.
pub struct RequestView {
    /// The access token of the client that the request was made from.
    pub token: Seq<char>,
    /// The path of the transaction.
    pub endpoint: Seq<char>,
    /// The entries of the form, in order.
    pub form: Seq<Pair>,
}

impl<'a> View for Request<'a> {
    type V = RequestView;

    closed spec fn view(&self) -> RequestView {
        RequestView {
            token: self.client.token(),
            endpoint: self.endpoint@,
            form: fields_view(self.form@),
        }
    }
}

/// The path of the transaction `transaction_id`.
pub open spec fn path_of(transaction_id: Seq<char>) -> Seq<char> {
    "/transactions/"@ + transaction_id
}

/// The form key under which the API reads the metadata key `key`.
pub open spec fn form_key(key: Seq<char>) -> Seq<char> {
    "metadata["@ + key + "]"@
}

/// The form that carries `metadata`: one entry for each entry of the metadata,
/// in the same order, the key in brackets behind `metadata` and the value as
/// it is.
pub open spec fn form_of(metadata: Seq<Pair>) -> Seq<Pair> {
    Seq::new(metadata.len(), |i: int| (form_key(metadata[i].0), metadata[i].1))
}

/// The result of an annotation, given what handling the response gave: the
/// transaction out of its envelope, or the error as it is.
pub open spec fn transaction_result(handled: Result<Response, Error>) -> Result<Transaction, Error> {
    match handled {
        Ok(response) => Ok(response.transaction),
        Err(error) => Err(error),
    }
}

impl<'a> Endpoint for Request<'a> {
    open spec fn wire_method(&self) -> Method {
        Method::Patch
    }

    open spec fn wire_endpoint(&self) -> Seq<char> {
        self@.endpoint
    }

    open spec fn wire_query(&self) -> Seq<Pair> {
        Seq::empty()
    }

    open spec fn wire_json(&self) -> Option<Seq<Pair>> {
        None
    }

    open spec fn wire_form(&self) -> Option<Seq<Pair>> {
        Some(self@.form)
    }

    proof fn at_most_one_body(&self) {
    }

    fn method(&self) -> (method: Method) {
        Method::Patch
    }

    fn endpoint(&self) -> (endpoint: &str) {
        self.endpoint.as_str()
    }

    fn query(&self) -> (query: Vec<Field>) {
        let query: Vec<Field> = Vec::new();
        query
    }

    fn json(&self) -> (json: Option<Vec<Field>>) {
        None
    }

    fn form(&self) -> (form: Option<Vec<Field>>) {
        Some(copy_fields(&self.form))
    }
}

impl<'a> Request<'a> {
    /// A request, on behalf of `client`, to put `metadata` on the transaction
    /// `transaction_id`.
    pub fn new(client: &'a Client, transaction_id: &'a str, metadata: Metadata) -> (request: Self)
        ensures
            request@ == (RequestView {
                token: client.token(),
                endpoint: path_of(transaction_id@),
                form: form_of(metadata@),
            }),
            distinct_names(request@.form),
    {
        let endpoint = "/transactions/".to_owned().concat(transaction_id);

        let entries = metadata.entries();
        let mut form: Vec<Field> = Vec::new();
        let mut i: usize = 0;
        while i < entries.len()
            invariant
                i <= entries.len(),
                fields_view(entries@) == metadata@,
                form@.len() == i,
                forall|j: int| 0 <= j < i ==> (#[trigger] form@[j])@ == form_of(metadata@)[j],
            decreases entries.len() - i,
        {
            let key = "metadata[".to_owned().concat(entries[i].name.as_str()).concat("]");
            form.push(Field { name: key, value: entries[i].value.clone() });
            i += 1;
        }
        assert(fields_view(form@) =~= form_of(metadata@));
        proof {
            form_matches_metadata(metadata@);
        }

        Self { client, endpoint, form }
    }

    /// Consumes the request and gives what goes on the wire: a `PATCH` of the
    /// transaction's path, with the client's token as the bearer credential,
    /// no query, and the annotations as the form.
    pub fn into_request(self) -> (request: HttpRequest)
        ensures
            request@ == request_for(self@.token, &self),
            request@.method == Method::Patch,
            request@.url == resolve_url(self@.endpoint),
            request@.authorization == bearer(self@.token),
            request@.query == Seq::<Pair>::empty(),
            request@.body == BodyView::Form(self@.form),
    {
        build_request(self.client, self)
    }

    /// Turns the outcome of sending an annotation into the annotated
    /// transaction. The response is handled as [`handle_response`] handles any
    /// response, with the transaction's envelope as the expected type; the
    /// transaction is then taken out of the envelope, which cannot fail.
    pub fn receive<D, E>(outcome: Result<HttpResponse, String>, decode: D, decode_error: E) -> (result:
        Result<Transaction, Error>) where
        D: FnOnce(&Vec<u8>) -> Result<Response, String>,
        E: FnOnce(&Vec<u8>) -> Option<ErrorBody>,

        requires
            outcome matches Ok(response) ==> if is_success(response.status) {
                call_requires(decode, (&response.body,))
            } else {
                call_requires(decode_error, (&response.body,))
            },
        ensures
            match outcome {
                Err(cause) => result == Err::<Transaction, Error>(Error::Transport { cause }),
                Ok(response) => if is_success(response.status) {
                    exists|decoded: Result<Response, String>|
                        call_ensures(decode, (&response.body,), decoded) && result
                            == transaction_result(success_result(response.body, decoded))
                } else {
                    exists|decoded: Option<ErrorBody>|
                        call_ensures(decode_error, (&response.body,), decoded) && result == Err::<
                            Transaction,
                            Error,
                        >(failure_error(response.status, response.body, decoded))
                },
            },
    {
        match handle_response(outcome, decode, decode_error) {
            Ok(response) => Ok(Transaction::from(response)),
            Err(error) => Err(error),
        }
    }
}

/// An annotation goes to the path of its transaction below the base URL.
pub proof fn annotation_url(transaction_id: Seq<char>)
    ensures
        resolve_url(path_of(transaction_id)) == BASE_URL@ + "/transactions/"@ + transaction_id,
{
    reveal_strlit("/transactions/");
}

/// Two metadata keys with the same form key are the same key.
pub proof fn form_key_is_injective(a: Seq<char>, b: Seq<char>)
    requires
        form_key(a) == form_key(b),
    ensures
        a == b,
{
    // Each key is what stands between the prefix and the closing bracket.
    let start = "metadata["@.len() as int;
    let end = "]"@.len() as int;
    assert(form_key(a).len() == start + a.len() + end);
    assert(form_key(b).len() == start + b.len() + end);
    assert(a =~= form_key(a).subrange(start, start + a.len()));
    assert(b =~= form_key(b).subrange(start, start + b.len()));
}

/// The form says what the metadata holds and nothing else: it has one entry
/// for each entry of the metadata, and where no metadata key occurs twice, no
/// form key does.
pub proof fn form_matches_metadata(metadata: Seq<Pair>)
    ensures
        form_of(metadata).len() == metadata.len(),
        forall|i: int|
            0 <= i < metadata.len() ==> #[trigger] form_of(metadata)[i] == (
                form_key(metadata[i].0),
                metadata[i].1,
            ),
        distinct_names(metadata) ==> distinct_names(form_of(metadata)),
{
    if distinct_names(metadata) {
        assert forall|i: int, j: int| 0 <= i < j < form_of(metadata).len() implies (
        #[trigger] form_of(metadata)[i]).0 != (#[trigger] form_of(metadata)[j]).0 by {
            if form_of(metadata)[i].0 == form_of(metadata)[j].0 {
                form_key_is_injective(metadata[i].0, metadata[j].0);
            }
        }
    }
}

} // verus!
