//! Create items in your account feed

use vstd::prelude::*;
use crate::client::{BASE_URL, Client, bearer, build_request, request_for};
use crate::endpoints::Endpoint;
use crate::fields::{Field, Pair, distinct_names, fields_view, has_name, lemma_push_pair,
    lemma_with_optional, push_field, push_optional, text, value_of, with_optional};
use crate::http::{BodyView, HttpRequest, Method};

verus! {

/// The one kind of feed item that the API supports.
pub type Basic<'a> = Request<'a>;

/// A request to create a new basic feed item.
///
/// Currently a 'basic' feed item is the only kind
/// of feed item which is supported
///
/// Use the builder methods to set optional fields
#[derive(Debug)]
#[must_use]
pub struct Request<'a> {
    client: &'a Client,
    payload: Payload<'a>,
}

#[derive(Debug)]
struct Params<'a> {
    title: &'a str,
    image_url: &'a str,
    background_color: Option<&'a str>,
    body_color: Option<&'a str>,
    title_color: Option<&'a str>,
    body: Option<&'a str>,
}

#[derive(Debug)]
struct Payload<'a> {
    // required for all feed item requests
    account_id: &'a str,
    kind: &'static str,
    url: Option<&'a str>,
    params: Params<'a>,
}

/// What a [`Request`] holds: the required fields, and each optional field
/// where it has been set.
pub struct RequestView {
    /// The access token of the client that the request was made from.
    pub token: Seq<char>,
    pub account_id: Seq<char>,
    /// The kind of feed item, sent as `type`.
    pub kind: Seq<char>,
    pub url: Option<Seq<char>>,
    pub title: Seq<char>,
    pub image_url: Seq<char>,
    pub background_color: Option<Seq<char>>,
    pub body_color: Option<Seq<char>>,
    pub title_color: Option<Seq<char>>,
    pub body: Option<Seq<char>>,
}

impl RequestView {
    /// A request with the required fields and no optional field set.
    pub open spec fn initial(
        token: Seq<char>,
        account_id: Seq<char>,
        title: Seq<char>,
        image_url: Seq<char>,
    ) -> RequestView {
        RequestView {
            token,
            account_id,
            kind: "basic"@,
            url: None,
            title,
            image_url,
            background_color: None,
            body_color: None,
            title_color: None,
            body: None,
        }
    }

    /// The members of the body that the request sends, in order: the account,
    /// the kind, the url if it is set, then the item's parameters, each
    /// optional one only if it is set.
    pub open spec fn wire_fields(self) -> Seq<Pair> {
        let required = Seq::<Pair>::empty().push(("account_id"@, self.account_id)).push(
            ("type"@, self.kind),
        );
        let head = with_optional(required, "url"@, self.url).push(
            ("params[title]"@, self.title),
        ).push(("params[image_url]"@, self.image_url));
        let colors = with_optional(
            with_optional(
                with_optional(head, "params[background_color]"@, self.background_color),
                "params[body_color]"@,
                self.body_color,
            ),
            "params[title_color]"@,
            self.title_color,
        );
        with_optional(colors, "params[body]"@, self.body)
    }
}

impl<'a> View for Request<'a> {
    type V = RequestView;

    closed spec fn view(&self) -> RequestView {
        RequestView {
            token: self.client.token(),
            account_id: self.payload.account_id@,
            kind: self.payload.kind@,
            url: text(self.payload.url),
            title: self.payload.params.title@,
            image_url: self.payload.params.image_url@,
            background_color: text(self.payload.params.background_color),
            body_color: text(self.payload.params.body_color),
            title_color: text(self.payload.params.title_color),
            body: text(self.payload.params.body),
        }
    }
}

impl<'a> Request<'a> {
    /// A request, on behalf of `client`, to put an item with the given title
    /// and image into the feed of the account `account_id`. No optional field
    /// is set.
    pub fn new(client: &'a Client, account_id: &'a str, title: &'a str, image_url: &'a str) -> (request:
        Self)
        ensures
            request@ == RequestView::initial(client.token(), account_id@, title@, image_url@),
    {
        let params = Params {
            title,
            image_url,
            background_color: None,
            body_color: None,
            title_color: None,
            body: None,
        };

        let payload = Payload { account_id, url: None, kind: "basic", params };

        Self { client, payload }
    }

    /// Set the url of the feed item.
    ///
    /// This is the url the user will be redirected to after
    /// tapping on the feed item
    pub fn url(self, url: &'a str) -> (request: Self)
        ensures
            request@ == (RequestView { url: Some(url@), ..self@ }),
    {
        let mut request = self;
        request.payload.url = Some(url);
        request
    }

    /// Set the title of the feed item.
    pub fn title(self, title: &'a str) -> (request: Self)
        ensures
            request@ == (RequestView { title: title@, ..self@ }),
    {
        let mut request = self;
        request.payload.params.title = title;
        request
    }

    /// Set the image of the feed item.
    ///
    /// # Note
    /// *This doesn't currently seem to do anything*
    pub fn image_url(self, image_url: &'a str) -> (request: Self)
        ensures
            request@ == (RequestView { image_url: image_url@, ..self@ }),
    {
        let mut request = self;
        request.payload.params.image_url = image_url;
        request
    }

    /// Set the background colour of the feed item
    pub fn background_color(self, background_color: &'a str) -> (request: Self)
        ensures
            request@ == (RequestView { background_color: Some(background_color@), ..self@ }),
    {
        let mut request = self;
        request.payload.params.background_color = Some(background_color);
        request
    }

    /// Set the body colour of the feed item
    pub fn body_color(self, body_color: &'a str) -> (request: Self)
        ensures
            request@ == (RequestView { body_color: Some(body_color@), ..self@ }),
    {
        let mut request = self;
        request.payload.params.body_color = Some(body_color);
        request
    }

    /// Set the title colour of the feed item
    pub fn title_color(self, title_color: &'a str) -> (request: Self)
        ensures
            request@ == (RequestView { title_color: Some(title_color@), ..self@ }),
    {
        let mut request = self;
        request.payload.params.title_color = Some(title_color);
        request
    }

    /// Set the body text of the feed item
    pub fn body(self, body: &'a str) -> (request: Self)
        ensures
            request@ == (RequestView { body: Some(body@), ..self@ }),
    {
        let mut request = self;
        request.payload.params.body = Some(body);
        request
    }

    /// Consumes the request and gives what goes on the wire: a `POST` to
    /// `/feed` below the base URL, with the client's token as the bearer
    /// credential, no query, and the fields of the item as the JSON body.
    pub fn into_request(self) -> (request: HttpRequest)
        ensures
            request@ == request_for(self@.token, &self),
            request@.method == Method::Post,
            request@.url == BASE_URL@ + "/feed"@,
            request@.authorization == bearer(self@.token),
            request@.query == Seq::<Pair>::empty(),
            request@.body == BodyView::Json(self@.wire_fields()),
    {
        proof {
            reveal_strlit("/feed");
        }
        build_request(self.client, self)
    }
}

impl<'a> Endpoint for Request<'a> {
    open spec fn wire_method(&self) -> Method {
        Method::Post
    }

    open spec fn wire_endpoint(&self) -> Seq<char> {
        "/feed"@
    }

    open spec fn wire_query(&self) -> Seq<Pair> {
        Seq::empty()
    }

    open spec fn wire_json(&self) -> Option<Seq<Pair>> {
        Some(self@.wire_fields())
    }

    open spec fn wire_form(&self) -> Option<Seq<Pair>> {
        None
    }

    proof fn at_most_one_body(&self) {
    }

    fn method(&self) -> (method: Method) {
        Method::Post
    }

    fn endpoint(&self) -> (endpoint: &str) {
        "/feed"
    }

    fn query(&self) -> (query: Vec<Field>) {
        let query: Vec<Field> = Vec::new();
        query
    }

    fn json(&self) -> (json: Option<Vec<Field>>) {
        let mut fields: Vec<Field> = Vec::new();
        push_field(&mut fields, "account_id", self.payload.account_id);
        push_field(&mut fields, "type", self.payload.kind);
        push_optional(&mut fields, "url", self.payload.url);
        push_field(&mut fields, "params[title]", self.payload.params.title);
        push_field(&mut fields, "params[image_url]", self.payload.params.image_url);
        push_optional(&mut fields, "params[background_color]", self.payload.params.background_color);
        push_optional(&mut fields, "params[body_color]", self.payload.params.body_color);
        push_optional(&mut fields, "params[title_color]", self.payload.params.title_color);
        push_optional(&mut fields, "params[body]", self.payload.params.body);
        Some(fields)
    }

    fn form(&self) -> (form: Option<Vec<Field>>) {
        None
    }
}

/// Whether `name` is the name of a member that a feed item request can send.
pub open spec fn is_member_name(name: Seq<char>) -> bool {
    ||| name == "account_id"@
    ||| name == "type"@
    ||| name == "url"@
    ||| name == "params[title]"@
    ||| name == "params[image_url]"@
    ||| name == "params[background_color]"@
    ||| name == "params[body_color]"@
    ||| name == "params[title_color]"@
    ||| name == "params[body]"@
}

/// A request made with the required fields alone sends exactly the account,
/// the kind `basic`, the title and the image, and none of the optional fields.
pub proof fn required_fields_only(
    token: Seq<char>,
    account_id: Seq<char>,
    title: Seq<char>,
    image_url: Seq<char>,
)
    ensures
        RequestView::initial(token, account_id, title, image_url).wire_fields() == seq![
            ("account_id"@, account_id),
            ("type"@, "basic"@),
            ("params[title]"@, title),
            ("params[image_url]"@, image_url),
        ],
{
    let sent = RequestView::initial(token, account_id, title, image_url).wire_fields();
    assert(sent =~= seq![
        ("account_id"@, account_id),
        ("type"@, "basic"@),
        ("params[title]"@, title),
        ("params[image_url]"@, image_url),
    ]);
}

/// The body says what the request holds and nothing else: no name occurs
/// twice, every name is one of the members' names, each required member is
/// there with its value, and each optional member is there exactly when it has
/// been set, with the value it was set to.
pub proof fn body_matches_request(request: RequestView)
    ensures
        distinct_names(request.wire_fields()),
        forall|i: int|
            0 <= i < request.wire_fields().len() ==> is_member_name(
                (#[trigger] request.wire_fields()[i]).0,
            ),
        value_of(request.wire_fields(), "account_id"@) == Some(request.account_id),
        value_of(request.wire_fields(), "type"@) == Some(request.kind),
        value_of(request.wire_fields(), "url"@) == request.url,
        value_of(request.wire_fields(), "params[title]"@) == Some(request.title),
        value_of(request.wire_fields(), "params[image_url]"@) == Some(request.image_url),
        value_of(request.wire_fields(), "params[background_color]"@) == request.background_color,
        value_of(request.wire_fields(), "params[body_color]"@) == request.body_color,
        value_of(request.wire_fields(), "params[title_color]"@) == request.title_color,
        value_of(request.wire_fields(), "params[body]"@) == request.body,
{
    reveal_strlit("account_id");
    reveal_strlit("type");
    reveal_strlit("url");
    reveal_strlit("params[title]");
    reveal_strlit("params[image_url]");
    reveal_strlit("params[background_color]");
    reveal_strlit("params[body_color]");
    reveal_strlit("params[title_color]");
    reveal_strlit("params[body]");
    // The nine names have nine lengths, so no two of them are equal.
    assert("account_id"@.len() == 10 && "type"@.len() == 4 && "url"@.len() == 3);
    assert("params[title]"@.len() == 13 && "params[image_url]"@.len() == 17);
    assert("params[background_color]"@.len() == 24 && "params[body_color]"@.len() == 18);
    assert("params[title_color]"@.len() == 19 && "params[body]"@.len() == 12);
    let s0 = Seq::<Pair>::empty();
    let s1 = s0.push(("account_id"@, request.account_id));
    let s2 = s1.push(("type"@, request.kind));
    let s3 = with_optional(s2, "url"@, request.url);
    let s4 = s3.push(("params[title]"@, request.title));
    let s5 = s4.push(("params[image_url]"@, request.image_url));
    let s6 = with_optional(s5, "params[background_color]"@, request.background_color);
    let s7 = with_optional(s6, "params[body_color]"@, request.body_color);
    let s8 = with_optional(s7, "params[title_color]"@, request.title_color);
    let s9 = with_optional(s8, "params[body]"@, request.body);
    lemma_push_pair(s0, ("account_id"@, request.account_id));
    lemma_push_pair(s1, ("type"@, request.kind));
    lemma_with_optional(s2, "url"@, request.url);
    lemma_push_pair(s3, ("params[title]"@, request.title));
    lemma_push_pair(s4, ("params[image_url]"@, request.image_url));
    lemma_with_optional(s5, "params[background_color]"@, request.background_color);
    lemma_with_optional(s6, "params[body_color]"@, request.body_color);
    lemma_with_optional(s7, "params[title_color]"@, request.title_color);
    lemma_with_optional(s8, "params[body]"@, request.body);
}

} // verus!
