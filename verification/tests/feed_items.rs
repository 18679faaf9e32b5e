use monzo::client::Client;
use monzo::endpoints::feed_items::{Basic, Request};
use monzo::endpoints::Endpoint;
use monzo::fields::Field;
use monzo::http::{Body, Method};

fn names(fields: &[Field]) -> Vec<&str> {
    fields.iter().map(|f| f.name.as_str()).collect()
}

fn sent(request: Request) -> Vec<Field> {
    match request.into_request().body {
        Body::Json(fields) => fields,
        other => panic!("expected a JSON body, got {:?}", other),
    }
}

#[test]
fn required_fields_only() {
    let client = Client::new("tok");
    let request = Request::new(&client, "acc_1", "Hello", "https://example.org/i.png");
    assert_eq!(
        sent(request),
        vec![
            Field::new("account_id", "acc_1"),
            Field::new("type", "basic"),
            Field::new("params[title]", "Hello"),
            Field::new("params[image_url]", "https://example.org/i.png"),
        ]
    );
}

#[test]
fn body_color_is_sent_once_set() {
    let client = Client::new("tok");
    let request = Request::new(&client, "acc_1", "Hello", "img").body_color("#FF0000");
    let fields = sent(request);
    assert_eq!(
        fields,
        vec![
            Field::new("account_id", "acc_1"),
            Field::new("type", "basic"),
            Field::new("params[title]", "Hello"),
            Field::new("params[image_url]", "img"),
            Field::new("params[body_color]", "#FF0000"),
        ]
    );
}

#[test]
fn unset_optional_fields_stay_absent() {
    let client = Client::new("tok");
    let fields = sent(Request::new(&client, "acc_1", "Hello", "img").body_color("#FF0000"));
    for absent in
        ["url", "params[background_color]", "params[title_color]", "params[body]"]
    {
        assert!(!names(&fields).contains(&absent), "{}", absent);
    }
}

#[test]
fn each_optional_field_alone() {
    let client = Client::new("tok");
    let base = || Request::new(&client, "a", "t", "i");
    let cases: Vec<(Request, &str)> = vec![
        (base().url("v"), "url"),
        (base().background_color("v"), "params[background_color]"),
        (base().body_color("v"), "params[body_color]"),
        (base().title_color("v"), "params[title_color]"),
        (base().body("v"), "params[body]"),
    ];
    for (request, name) in cases {
        let fields = sent(request);
        assert_eq!(fields.len(), 5, "{}", name);
        let found: Vec<&Field> = fields.iter().filter(|f| f.name == name).collect();
        assert_eq!(found, vec![&Field::new(name, "v")]);
    }
}

#[test]
fn all_fields_in_order() {
    let client = Client::new("tok");
    let request = Request::new(&client, "acc_1", "Title", "img")
        .body("Body text")
        .title_color("#111111")
        .body_color("#222222")
        .background_color("#333333")
        .url("https://monzo.com");
    assert_eq!(
        sent(request),
        vec![
            Field::new("account_id", "acc_1"),
            Field::new("type", "basic"),
            Field::new("url", "https://monzo.com"),
            Field::new("params[title]", "Title"),
            Field::new("params[image_url]", "img"),
            Field::new("params[background_color]", "#333333"),
            Field::new("params[body_color]", "#222222"),
            Field::new("params[title_color]", "#111111"),
            Field::new("params[body]", "Body text"),
        ]
    );
}

#[test]
fn no_name_is_sent_twice() {
    let client = Client::new("tok");
    let request = Request::new(&client, "a", "t", "i")
        .url("1")
        .url("2")
        .body("x")
        .body("y")
        .background_color("b")
        .body_color("c")
        .title_color("d");
    let fields = sent(request);
    let mut seen = names(&fields);
    seen.sort();
    seen.dedup();
    assert_eq!(seen.len(), fields.len());
    assert!(fields.contains(&Field::new("url", "2")));
    assert!(fields.contains(&Field::new("params[body]", "y")));
}

#[test]
fn title_and_image_can_be_replaced() {
    let client = Client::new("tok");
    let request = Request::new(&client, "a", "old title", "old image")
        .title("new title")
        .image_url("new image");
    assert_eq!(
        sent(request),
        vec![
            Field::new("account_id", "a"),
            Field::new("type", "basic"),
            Field::new("params[title]", "new title"),
            Field::new("params[image_url]", "new image"),
        ]
    );
}

#[test]
fn setting_an_empty_value_still_sends_the_field() {
    let client = Client::new("tok");
    let fields = sent(Request::new(&client, "a", "t", "i").body(""));
    assert!(fields.contains(&Field::new("params[body]", "")));
}

#[test]
fn feed_item_goes_on_the_wire_as_a_post() {
    let client = Client::new("tok_9");
    let request = Request::new(&client, "acc_1", "Hello", "img").into_request();
    assert_eq!(request.method, Method::Post);
    assert_eq!(request.url, "https://api.monzo.com/feed");
    assert_eq!(request.authorization, "Bearer tok_9");
    assert_eq!(request.query, vec![]);
    assert_eq!(request.body.content_type(), Some("application/json"));
}

#[test]
fn feed_item_declares_a_json_body_and_no_form() {
    let client = Client::new("tok");
    let request = Request::new(&client, "acc_1", "Hello", "img");
    assert_eq!(request.method(), Method::Post);
    assert_eq!(request.endpoint(), "/feed");
    assert_eq!(request.query(), vec![]);
    assert_eq!(request.form(), None);
    assert_eq!(request.json().map(|f| f.len()), Some(4));
}

#[test]
fn basic_is_the_feed_item_request() {
    let client = Client::new("tok");
    let request: Basic = Basic::new(&client, "a", "t", "i");
    assert_eq!(sent(request).len(), 4);
}
