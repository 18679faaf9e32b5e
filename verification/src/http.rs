//! Plain values for one HTTP exchange: what is sent and what comes back.

use vstd::prelude::*;
use crate::fields::{Field, Pair, fields_view};

verus! {

/// The HTTP method of a request.
#[derive(Debug, Clone, Copy, PartialEq, Eq)]
pub enum Method {
    Get,
    Post,
    Put,
    Patch,
    Delete,
}

impl Method {
    /// The method's name on the request line.
    pub open spec fn name(self) -> Seq<char> {
        match self {
            Method::Get => "GET"@,
            Method::Post => "POST"@,
            Method::Put => "PUT"@,
            Method::Patch => "PATCH"@,
            Method::Delete => "DELETE"@,
        }
    }

    /// The method's name on the request line.
    pub fn as_str(&self) -> (s: &'static str)
        ensures
            s@ == self.name(),
    {
        match self {
            Method::Get => "GET",
            Method::Post => "POST",
            Method::Put => "PUT",
            Method::Patch => "PATCH",
            Method::Delete => "DELETE",
        }
    }
}

/// The body of a request. A request carries no body, a JSON object of string
/// members, or a form: never two of them.
#[derive(Debug, Clone, PartialEq, Eq)]
pub enum Body {
    Empty,
    Json(Vec<Field>),
    Form(Vec<Field>),
}

/// What a [`Body`] holds.
#[verifier::ext_equal]
pub enum BodyView {
    Empty,
    Json(Seq<Pair>),
    Form(Seq<Pair>),
}

impl View for Body {
    type V = BodyView;

    open spec fn view(&self) -> BodyView {
        match self {
            Body::Empty => BodyView::Empty,
            Body::Json(fields) => BodyView::Json(fields_view(fields@)),
            Body::Form(fields) => BodyView::Form(fields_view(fields@)),
        }
    }
}

impl BodyView {
    /// The value of the `Content-Type` header that goes with the body.
    pub open spec fn content_type(self) -> Option<Seq<char>> {
        match self {
            BodyView::Empty => None,
            BodyView::Json(_) => Some("application/json"@),
            BodyView::Form(_) => Some("application/x-www-form-urlencoded"@),
        }
    }
}

impl Body {
    /// The value of the `Content-Type` header that goes with the body, if the
    /// request has one.
    pub fn content_type(&self) -> (content_type: Option<&'static str>)
        ensures
            match content_type {
                Some(s) => self@.content_type() == Some(s@),
                None => self@.content_type() is None,
            },
    {
        match self {
            Body::Empty => None,
            Body::Json(_) => Some("application/json"),
            Body::Form(_) => Some("application/x-www-form-urlencoded"),
        }
    }
}

/// A request, ready to be sent.
#[derive(Debug, PartialEq, Eq)]
pub struct HttpRequest {
    pub method: Method,
    /// The absolute URL, without the query string.
    pub url: String,
    /// The value of the `Authorization` header.
    pub authorization: String,
    /// The parameters of the query string, in order.
    pub query: Vec<Field>,
    pub body: Body,
}

/// What an [`HttpRequest`] holds.
#[verifier::ext_equal]
pub struct HttpRequestView {
    pub method: Method,
    pub url: Seq<char>,
    pub authorization: Seq<char>,
    pub query: Seq<Pair>,
    pub body: BodyView,
}

impl View for HttpRequest {
    type V = HttpRequestView;

    open spec fn view(&self) -> HttpRequestView {
        HttpRequestView {
            method: self.method,
            url: self.url@,
            authorization: self.authorization@,
            query: fields_view(self.query@),
            body: self.body@,
        }
    }
}

/// A response as it was received: the status code and the undecoded body.
#[derive(Debug, Clone, PartialEq, Eq)]
pub struct HttpResponse {
    pub status: u16,
    pub body: Vec<u8>,
}

/// Whether `status` is in the success class, 200 to 299.
pub open spec fn is_success(status: u16) -> bool {
    200 <= status < 300
}

impl HttpResponse {
    /// Tells whether the response has a success status.
    pub fn is_success(&self) -> (success: bool)
        ensures
            success == is_success(self.status),
    {
        200 <= self.status && self.status < 300
    }
}

} // verus!
