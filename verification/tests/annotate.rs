use monzo::client::Client;
use monzo::endpoints::transactions::annotate::Request;
use monzo::endpoints::transactions::get::Response;
use monzo::endpoints::transactions::metadata::Metadata;
use monzo::endpoints::transactions::Transaction;
use monzo::endpoints::Endpoint;
use monzo::error::{Error, ErrorBody};
use monzo::fields::Field;
use monzo::http::{Body, HttpResponse, Method};

fn metadata(entries: &[(&str, &str)]) -> Metadata {
    let mut metadata = Metadata::new();
    for (key, value) in entries {
        metadata.insert(key.to_string(), value.to_string());
    }
    metadata
}

/// Reads `{"transaction": {..}}` with the fields that a transaction keeps.
fn read_envelope(body: &Vec<u8>) -> Result<Response, String> {
    let value: serde_json::Value = serde_json::from_slice(body).map_err(|e| e.to_string())?;
    let inner = value.get("transaction").ok_or("missing field `transaction`".to_string())?;
    let text = |name: &str| {
        inner
            .get(name)
            .and_then(|v| v.as_str())
            .map(|s| s.to_string())
            .ok_or(format!("missing field `{}`", name))
    };
    let amount = inner
        .get("amount")
        .and_then(|v| v.as_i64())
        .ok_or("missing field `amount`".to_string())?;
    let mut notes = Metadata::new();
    if let Some(object) = inner.get("metadata").and_then(|v| v.as_object()) {
        for (key, value) in object {
            notes.insert(key.clone(), value.as_str().unwrap_or("").to_string());
        }
    }
    Ok(Response {
        transaction: Transaction::new(
            text("id")?,
            amount,
            text("currency")?,
            text("description")?,
            notes,
        ),
    })
}

fn read_error(body: &Vec<u8>) -> Option<ErrorBody> {
    let value: serde_json::Value = serde_json::from_slice(body).ok()?;
    Some(ErrorBody {
        code: value.get("code")?.as_str()?.to_string(),
        message: value.get("message")?.as_str()?.to_string(),
    })
}

#[test]
fn notes_lunch_becomes_one_form_entry() {
    let client = Client::new("tok");
    let request = Request::new(&client, "tx_1", metadata(&[("notes", "lunch")])).into_request();
    assert_eq!(request.body, Body::Form(vec![Field::new("metadata[notes]", "lunch")]));
}

#[test]
fn annotation_goes_on_the_wire_as_a_patch_of_the_transaction() {
    let client = Client::new("tok_7");
    let request =
        Request::new(&client, "tx_00008zIcpb1TB4yeIFXMzx", metadata(&[("notes", "lunch")]))
            .into_request();
    assert_eq!(request.method, Method::Patch);
    assert_eq!(request.url, "https://api.monzo.com/transactions/tx_00008zIcpb1TB4yeIFXMzx");
    assert_eq!(request.authorization, "Bearer tok_7");
    assert_eq!(request.query, vec![]);
    assert_eq!(request.body.content_type(), Some("application/x-www-form-urlencoded"));
}

#[test]
fn annotation_declares_a_form_and_no_json_body() {
    let client = Client::new("tok");
    let request = Request::new(&client, "tx_1", metadata(&[("a", "1")]));
    assert_eq!(request.method(), Method::Patch);
    assert_eq!(request.endpoint(), "/transactions/tx_1");
    assert_eq!(request.query(), vec![]);
    assert_eq!(request.json(), None);
    assert_eq!(request.form(), Some(vec![Field::new("metadata[a]", "1")]));
}

#[test]
fn every_metadata_entry_gets_its_bracketed_key() {
    let client = Client::new("tok");
    let entries = metadata(&[("notes", "lunch"), ("category", "eating_out"), ("", "empty key")]);
    let request = Request::new(&client, "tx_1", entries).into_request();
    assert_eq!(
        request.body,
        Body::Form(vec![
            Field::new("metadata[notes]", "lunch"),
            Field::new("metadata[category]", "eating_out"),
            Field::new("metadata[]", "empty key"),
        ])
    );
}

#[test]
fn keys_are_bracketed_as_they_are() {
    let client = Client::new("tok");
    let request = Request::new(&client, "tx_1", metadata(&[("a]b[c", "v")])).into_request();
    assert_eq!(request.body, Body::Form(vec![Field::new("metadata[a]b[c]", "v")]));
}

#[test]
fn no_metadata_gives_an_empty_form() {
    let client = Client::new("tok");
    let request = Request::new(&client, "tx_1", Metadata::new()).into_request();
    assert_eq!(request.body, Body::Form(vec![]));
}

#[test]
fn empty_transaction_id_gives_the_bare_path() {
    let client = Client::new("tok");
    let request = Request::new(&client, "", Metadata::new());
    assert_eq!(request.endpoint(), "/transactions/");
}

#[test]
fn metadata_starts_empty() {
    let metadata = Metadata::new();
    assert!(metadata.is_empty());
    assert_eq!(metadata.len(), 0);
    assert_eq!(metadata.get("notes"), None);
    assert_eq!(metadata.entries(), &Vec::<Field>::new());
}

#[test]
fn metadata_insert_appends_a_new_key() {
    let mut metadata = Metadata::new();
    assert_eq!(metadata.insert("notes".to_string(), "lunch".to_string()), None);
    assert_eq!(metadata.insert("tag".to_string(), "food".to_string()), None);
    assert_eq!(metadata.len(), 2);
    assert!(!metadata.is_empty());
    assert_eq!(metadata.get("notes"), Some(&"lunch".to_string()));
    assert_eq!(metadata.get("tag"), Some(&"food".to_string()));
    assert_eq!(metadata.get("other"), None);
    assert_eq!(
        metadata.entries(),
        &vec![Field::new("notes", "lunch"), Field::new("tag", "food")]
    );
}

#[test]
fn metadata_insert_replaces_an_existing_key_in_place() {
    let mut metadata = metadata(&[("notes", "lunch"), ("tag", "food")]);
    let previous = metadata.insert("notes".to_string(), "dinner".to_string());
    assert_eq!(previous, Some("lunch".to_string()));
    assert_eq!(metadata.len(), 2);
    assert_eq!(
        metadata.entries(),
        &vec![Field::new("notes", "dinner"), Field::new("tag", "food")]
    );
}

#[test]
fn metadata_clone_has_the_same_entries() {
    let first = metadata(&[("notes", "lunch"), ("tag", "food")]);
    let copy = first.clone();
    assert_eq!(copy, first);
    assert_eq!(copy.entries(), first.entries());
}

#[test]
fn a_key_inserted_twice_is_sent_once() {
    let client = Client::new("tok");
    let request =
        Request::new(&client, "tx_1", metadata(&[("notes", "a"), ("notes", "b")])).into_request();
    assert_eq!(request.body, Body::Form(vec![Field::new("metadata[notes]", "b")]));
}

#[test]
fn transaction_accessors_return_the_fields() {
    let transaction = Transaction::new(
        "tx_1".to_string(),
        -1250,
        "GBP".to_string(),
        "PRET A MANGER".to_string(),
        metadata(&[("notes", "lunch")]),
    );
    assert_eq!(transaction.id(), "tx_1");
    assert_eq!(transaction.amount(), -1250);
    assert_eq!(transaction.currency(), "GBP");
    assert_eq!(transaction.description(), "PRET A MANGER");
    assert_eq!(transaction.metadata().get("notes"), Some(&"lunch".to_string()));
}

#[test]
fn transaction_comes_out_of_its_envelope() {
    let transaction = Transaction::new(
        "tx_1".to_string(),
        5,
        "GBP".to_string(),
        "d".to_string(),
        Metadata::new(),
    );
    let response = Response { transaction: transaction.clone() };
    assert_eq!(Transaction::from(response), transaction);
}

#[test]
fn annotated_transaction_is_received() {
    let body = "{\"transaction\":{\"id\":\"tx_1\",\"amount\":-1250,\"currency\":\"GBP\",\
                \"description\":\"PRET\",\"metadata\":{\"notes\":\"lunch\"}}}";
    let outcome = Ok(HttpResponse { status: 200, body: body.as_bytes().to_vec() });
    let transaction = Request::receive(outcome, read_envelope, read_error).unwrap();
    assert_eq!(transaction.id(), "tx_1");
    assert_eq!(transaction.amount(), -1250);
    assert_eq!(transaction.metadata().get("notes"), Some(&"lunch".to_string()));
}

#[test]
fn malformed_transaction_is_a_decode_error() {
    let body = "{\"transaction\":{\"id\":\"tx_1\"}}";
    let outcome = Ok(HttpResponse { status: 200, body: body.as_bytes().to_vec() });
    let result = Request::receive(outcome, read_envelope, read_error);
    assert_eq!(
        result,
        Err(Error::Decode {
            raw: body.as_bytes().to_vec(),
            reason: "missing field `amount`".to_string(),
        })
    );
}

#[test]
fn annotation_failures_are_classified() {
    let body = "{\"code\":\"not_found\",\"message\":\"Transaction not found\"}";
    let outcome = Ok(HttpResponse { status: 404, body: body.as_bytes().to_vec() });
    let result = Request::receive(outcome, read_envelope, read_error);
    assert_eq!(
        result,
        Err(Error::Api {
            status: 404,
            code: Some("not_found".to_string()),
            message: Some("Transaction not found".to_string()),
            raw: body.as_bytes().to_vec(),
        })
    );
    let outcome: Result<HttpResponse, String> = Err("timed out".to_string());
    let result = Request::receive(outcome, read_envelope, read_error);
    assert_eq!(result, Err(Error::Transport { cause: "timed out".to_string() }));
}
