//! The authenticated client and the executor that every operation goes through.

use vstd::prelude::*;
use crate::endpoints::Endpoint;
use crate::error::{Error, ErrorBody};
use crate::fields::Pair;
use crate::http::{Body, BodyView, HttpRequest, HttpRequestView, HttpResponse, is_success};

verus! {

/// The root of the API: every path that an operation declares lies below it.
pub const BASE_URL: &'static str = "https://api.monzo.com";

/// What the requests of one session share: the access token that each of them
/// presents. A client is made once and lent to every request builder; no
/// request changes it.
#[derive(Debug, Clone, PartialEq, Eq)]
pub struct Client {
    access_token: String,
}

impl Client {
    /// The client's access token.
    pub closed spec fn token(&self) -> Seq<char> {
        self.access_token@
    }

    /// A client that authenticates with `access_token`.
    pub fn new(access_token: &str) -> (client: Client)
        ensures
            client.token() == access_token@,
    {
        Client { access_token: access_token.to_owned() }
    }

    /// The client's access token.
    pub fn access_token(&self) -> (token: &str)
        ensures
            token@ == self.token(),
    {
        self.access_token.as_str()
    }
}

/// The URL that a declared endpoint stands for: a path, which starts with `/`,
/// lies below [`BASE_URL`]; anything else is taken as an absolute URL.
pub open spec fn resolve_url(endpoint: Seq<char>) -> Seq<char> {
    if endpoint.len() > 0 && endpoint[0] == '/' {
        BASE_URL@ + endpoint
    } else {
        endpoint
    }
}

/// The `Authorization` header that presents `token` as a bearer credential.
pub open spec fn bearer(token: Seq<char>) -> Seq<char> {
    "Bearer "@ + token
}

/// The body of a request whose operation declares `json` and `form`.
pub open spec fn body_of(json: Option<Seq<Pair>>, form: Option<Seq<Pair>>) -> BodyView {
    match json {
        Some(members) => BodyView::Json(members),
        None => match form {
            Some(entries) => BodyView::Form(entries),
            None => BodyView::Empty,
        },
    }
}

/// The request that executes `endpoint` on behalf of the holder of `token`.
pub open spec fn request_for<E: Endpoint>(token: Seq<char>, endpoint: &E) -> HttpRequestView {
    HttpRequestView {
        method: endpoint.wire_method(),
        url: resolve_url(endpoint.wire_endpoint()),
        authorization: bearer(token),
        query: endpoint.wire_query(),
        body: body_of(endpoint.wire_json(), endpoint.wire_form()),
    }
}

/// Gives the absolute URL of a declared endpoint.
pub fn absolute_url(endpoint: &str) -> (url: String)
    ensures
        url@ == resolve_url(endpoint@),
{
    if !endpoint.is_empty() && endpoint.get_char(0) == '/' {
        BASE_URL.to_owned().concat(endpoint)
    } else {
        endpoint.to_owned()
    }
}

/// Builds the outbound request for an operation: its method and URL, the
/// client's token as a bearer credential, its query parameters, and its body
/// where it has one.
pub fn build_request<E: Endpoint>(client: &Client, endpoint: E) -> (request: HttpRequest)
    ensures
        request@ == request_for(client.token(), &endpoint),
        request.body is Json <==> endpoint.wire_json() is Some,
        request.body is Form <==> endpoint.wire_form() is Some,
{
    let json = endpoint.json();
    let form = endpoint.form();
    proof {
        endpoint.at_most_one_body();
    }
    let body = match json {
        Some(members) => Body::Json(members),
        None => match form {
            Some(entries) => Body::Form(entries),
            None => Body::Empty,
        },
    };
    HttpRequest {
        method: endpoint.method(),
        url: absolute_url(endpoint.endpoint()),
        authorization: "Bearer ".to_owned().concat(client.access_token()),
        query: endpoint.query(),
        body,
    }
}

/// What a response with a success status and the body `raw` yields, where
/// `decoded` is what decoding `raw` into the expected type gave: the decoded
/// value, or the reason why there is none.
pub open spec fn success_result<T>(raw: Vec<u8>, decoded: Result<T, String>) -> Result<T, Error> {
    match decoded {
        Ok(value) => Ok(value),
        Err(reason) => Err(Error::Decode { raw, reason }),
    }
}

/// The error that a response with the failure status `status` and the body
/// `raw` stands for, where `decoded` is the error description that `raw` holds,
/// if it could be read.
pub open spec fn failure_error(status: u16, raw: Vec<u8>, decoded: Option<ErrorBody>) -> Error {
    match decoded {
        Some(body) => Error::Api {
            status,
            code: Some(body.code),
            message: Some(body.message),
            raw,
        },
        None => Error::Api { status, code: None, message: None, raw },
    }
}

/// A response with a success status yields a value exactly when its body
/// decodes, and then the decoded value as it is. A body that does not decode
/// yields a [`Error::Decode`] with the body and the reason: no value is made up
/// from a part of it.
pub proof fn success_only_from_decoded_value<T>(raw: Vec<u8>, decoded: Result<T, String>)
    ensures
        success_result(raw, decoded) is Ok <==> decoded is Ok,
        decoded matches Ok(value) ==> success_result(raw, decoded) == Ok::<T, Error>(value),
        decoded matches Err(reason) ==> success_result(raw, decoded) == Err::<T, Error>(
            Error::Decode { raw, reason },
        ),
{
}

/// A response with a failure status yields an [`Error::Api`] with that status
/// and the body as it came: with the server's code and message where the body
/// could be read as an error description, with neither where it could not.
pub proof fn failure_keeps_what_was_read(status: u16, raw: Vec<u8>, decoded: Option<ErrorBody>)
    ensures
        failure_error(status, raw, decoded) is Api,
        failure_error(status, raw, decoded)->status == status,
        failure_error(status, raw, decoded)->Api_raw == raw,
        decoded matches Some(body) ==> failure_error(status, raw, decoded) == (Error::Api {
            status,
            code: Some(body.code),
            message: Some(body.message),
            raw,
        }),
        decoded is None ==> failure_error(status, raw, decoded) == (Error::Api {
            status,
            code: None,
            message: None,
            raw,
        }),
{
}

/// Concludes a response with a success status from what decoding its body
/// gave. A body that does not decode is a [`Error::Decode`] with the body and
/// the reason, never a value.
pub fn classify_success<T>(raw: Vec<u8>, decoded: Result<T, String>) -> (result: Result<T, Error>)
    ensures
        result == success_result(raw, decoded),
{
    match decoded {
        Ok(value) => Ok(value),
        Err(reason) => Err(Error::Decode { raw, reason }),
    }
}

/// Concludes a response with a failure status from what decoding its body as an
/// error description gave. The error has the server's code and message where
/// the body could be read, and neither where it could not.
pub fn classify_failure(status: u16, raw: Vec<u8>, decoded: Option<ErrorBody>) -> (error: Error)
    ensures
        error == failure_error(status, raw, decoded),
{
    match decoded {
        Some(body) => Error::Api {
            status,
            code: Some(body.code),
            message: Some(body.message),
            raw,
        },
        None => Error::Api { status, code: None, message: None, raw },
    }
}

/// Turns the outcome of sending a request into the operation's result.
///
/// `outcome` is the response, or the transport's description of why none
/// arrived. `decode` reads a body as the operation's success type and
/// `decode_error` reads one as the server's error description; the one that the
/// status calls for must accept the body. A transport failure is returned as
/// it is. A response with a success status is decoded with `decode`, any other
/// with `decode_error`; the result is what [`success_result`] and
/// [`failure_error`] make of the decoder's answer.
pub fn handle_response<T, D, E>(
    outcome: Result<HttpResponse, String>,
    decode: D,
    decode_error: E,
) -> (result: Result<T, Error>) where
    D: FnOnce(&Vec<u8>) -> Result<T, String>,
    E: FnOnce(&Vec<u8>) -> Option<ErrorBody>,

    requires
        outcome matches Ok(response) ==> if is_success(response.status) {
            call_requires(decode, (&response.body,))
        } else {
            call_requires(decode_error, (&response.body,))
        },
    ensures
        match outcome {
            Err(cause) => result == Err::<T, Error>(Error::Transport { cause }),
            Ok(response) => if is_success(response.status) {
                exists|decoded: Result<T, String>|
                    call_ensures(decode, (&response.body,), decoded) && result == success_result(
                        response.body,
                        decoded,
                    )
            } else {
                exists|decoded: Option<ErrorBody>|
                    call_ensures(decode_error, (&response.body,), decoded) && result == Err::<
                        T,
                        Error,
                    >(failure_error(response.status, response.body, decoded))
            },
        },
{
    match outcome {
        Err(cause) => Err(Error::Transport { cause }),
        Ok(response) => {
            if response.is_success() {
                let decoded = decode(&response.body);
                classify_success(response.body, decoded)
            } else {
                let decoded = decode_error(&response.body);
                Err(classify_failure(response.status, response.body, decoded))
            }
        },
    }
}

/// Turns the outcome of sending a request into the result of an operation that
/// returns nothing: any response with a success status is a success, whatever
/// its body holds. Failures are classified as [`handle_response`] does.
pub fn handle_empty_response<E>(outcome: Result<HttpResponse, String>, decode_error: E) -> (result:
    Result<(), Error>) where E: FnOnce(&Vec<u8>) -> Option<ErrorBody>
    requires
        outcome matches Ok(response) ==> !is_success(response.status) ==> call_requires(
            decode_error,
            (&response.body,),
        ),
    ensures
        match outcome {
            Err(cause) => result == Err::<(), Error>(Error::Transport { cause }),
            Ok(response) => if is_success(response.status) {
                result == Ok::<(), Error>(())
            } else {
                exists|decoded: Option<ErrorBody>|
                    call_ensures(decode_error, (&response.body,), decoded) && result == Err::<
                        (),
                        Error,
                    >(failure_error(response.status, response.body, decoded))
            },
        },
{
    match outcome {
        Err(cause) => Err(Error::Transport { cause }),
        Ok(response) => {
            if response.is_success() {
                Ok(())
            } else {
                let decoded = decode_error(&response.body);
                Err(classify_failure(response.status, response.body, decoded))
            }
        },
    }
}

} // verus!
