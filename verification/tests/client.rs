use stripe::client::{Client, DEFAULT_API_URL};
use stripe::error::{ApiError, ConfigError, RequestError};
use stripe::form::Params;
use stripe::request::{ApiRequest, Method};
use stripe::response::{decoding, process_response, Decoding, ResponseState};
use stripe::transport::{RawResponse, ResolvedRequest};

fn pair(key: &str, value: &str) -> (String, String) {
    (key.to_string(), value.to_string())
}

fn client() -> Client {
    Client::new("sk_test_123").unwrap()
}

fn text(value: &serde_json::Value, member: &str) -> Result<Option<String>, String> {
    match value.get(member) {
        None | Some(serde_json::Value::Null) => Ok(None),
        Some(serde_json::Value::String(s)) => Ok(Some(s.clone())),
        Some(_) => Err(format!("`{}` is not a string", member)),
    }
}

fn decode_envelope(body: Vec<u8>) -> Result<RequestError, String> {
    let value: serde_json::Value = serde_json::from_slice(&body).map_err(|e| e.to_string())?;
    let error = value.get("error").ok_or("missing field `error`".to_string())?;
    if !error.is_object() {
        return Err("`error` is not an object".to_string());
    }
    Ok(RequestError {
        message: text(error, "message")?,
        error_type: text(error, "type")?,
        code: text(error, "code")?,
        param: text(error, "param")?,
    })
}

fn decode_id(body: Vec<u8>) -> Result<String, String> {
    let value: serde_json::Value = serde_json::from_slice(&body).map_err(|e| e.to_string())?;
    match value.get("id") {
        Some(serde_json::Value::String(id)) => Ok(id.clone()),
        _ => Err("missing field `id`".to_string()),
    }
}

fn respond(status: u16, body: &str) -> RawResponse {
    RawResponse { status, body: body.as_bytes().to_vec() }
}

#[test]
fn new_client_uses_the_default_address() {
    let client = client();
    assert_eq!(client.api_url(), "https://api.stripe.com/v1");
    assert_eq!(client.api_url(), DEFAULT_API_URL);
    assert_eq!(client.secret_key(), "sk_test_123");
    assert_eq!(client.stripe_account_id(), None);
}

#[test]
fn a_base_url_that_is_no_url_is_refused_at_construction() {
    let refused = Client::with_api_url("sk_test_123", "not a url");
    assert_eq!(refused.err(), Some(ConfigError { base_url: "not a url".to_string() }));
    let relative = Client::with_api_url("sk_test_123", "/v1");
    assert_eq!(relative.err(), Some(ConfigError { base_url: "/v1".to_string() }));
    let accepted = Client::with_api_url("sk_test_123", "http://localhost:12111/v1");
    assert_eq!(accepted.unwrap().api_url(), "http://localhost:12111/v1");
}

#[test]
fn deriving_a_client_leaves_the_first_alone() {
    let base = client();
    let derived = base.with_stripe_account_id("acct_A");
    assert_eq!(base.stripe_account_id(), None);
    assert_eq!(derived.stripe_account_id(), Some(&"acct_A".to_string()));
    assert_eq!(derived.secret_key(), base.secret_key());
    assert_eq!(derived.api_url(), base.api_url());

    let again = derived.with_stripe_account_id("acct_B");
    assert_eq!(derived.stripe_account_id(), Some(&"acct_A".to_string()));
    assert_eq!(again.stripe_account_id(), Some(&"acct_B".to_string()));
}

#[test]
fn setting_the_account_in_place_changes_only_the_account() {
    let mut client = client();
    client.set_stripe_account_id("acct_A");
    assert_eq!(client.stripe_account_id(), Some(&"acct_A".to_string()));
    assert_eq!(client.secret_key(), "sk_test_123");
    assert_eq!(client.api_url(), DEFAULT_API_URL);
    let copy = client.clone();
    assert_eq!(copy.stripe_account_id(), Some(&"acct_A".to_string()));
}

#[test]
fn a_get_or_delete_has_no_body_and_a_post_always_has_one() {
    let client = client();
    let get: ApiRequest<()> = ApiRequest::get("/customers");
    let delete: ApiRequest<()> = ApiRequest::delete("/customers/cus_1");
    let post: ApiRequest<()> = ApiRequest::post("/customers");
    assert_eq!(client.resolve(&get).encoded_body, None);
    assert_eq!(client.resolve(&delete).encoded_body, None);
    assert_eq!(client.resolve(&post).encoded_body, Some(Vec::new()));

    let mut params = Params::new();
    params.put_str("", "email", "jdoe@example.org");
    let post = post.with_body_params(params);
    assert_eq!(
        client.resolve(&post).encoded_body,
        Some(b"email=jdoe%40example.org".to_vec())
    );
}

#[test]
fn a_request_knows_where_its_parameters_go() {
    let get: ApiRequest<()> = ApiRequest::new(Method::Get, "/charges");
    assert_eq!(get.method(), Method::Get);
    assert_eq!(get.path(), "/charges");
    assert_eq!(get.query_params().map(|p| p.len()), Some(0));
    assert!(get.body_params().is_none());
    assert_eq!(get.stripe_account(), None);

    let post: ApiRequest<()> = ApiRequest::new(Method::Post, "/charges");
    assert!(post.query_params().is_none());
    assert_eq!(post.body_params().map(|p| p.len()), Some(0));

    assert!(Method::Post.has_body());
    assert!(!Method::Get.has_body());
    assert!(!Method::Delete.has_body());
    assert_eq!(Method::Get.as_str(), "GET");
    assert_eq!(Method::Post.as_str(), "POST");
    assert_eq!(Method::Delete.as_str(), "DELETE");
}

#[test]
fn query_parameters_go_into_the_url() {
    let client = client();
    let bare: ApiRequest<()> = ApiRequest::get("/customers");
    assert_eq!(client.resolve(&bare).full_url, "https://api.stripe.com/v1/customers");

    let mut query = Params::new();
    query.put_opt_i64("", "limit", Some(3));
    query.put_str("", "starting_after", "cus_1");
    let listed: ApiRequest<()> = ApiRequest::get("/customers").with_query_params(query);
    let resolved = client.resolve(&listed);
    assert_eq!(
        resolved.full_url,
        "https://api.stripe.com/v1/customers?limit=3&starting_after=cus_1"
    );
    assert_eq!(resolved.method, Method::Get);
    assert_eq!(resolved.encoded_body, None);
}

#[test]
fn the_credential_is_the_key_with_an_empty_password() {
    let client = client();
    let get: ApiRequest<()> = ApiRequest::get("/customers");
    assert_eq!(
        client.headers(&get),
        vec![pair("Authorization", "Basic c2tfdGVzdF8xMjM6")]
    );
    let cyrillic = Client::new("ключ").unwrap();
    assert_eq!(
        cyrillic.headers(&get),
        vec![pair("Authorization", "Basic 0LrQu9GO0Yc6")]
    );
}

#[test]
fn only_a_post_declares_a_content_type() {
    let client = client();
    let post: ApiRequest<()> = ApiRequest::post("/customers");
    assert_eq!(
        client.headers(&post),
        vec![
            pair("Authorization", "Basic c2tfdGVzdF8xMjM6"),
            pair("Content-Type", "application/x-www-form-urlencoded"),
        ]
    );
    let delete: ApiRequest<()> = ApiRequest::delete("/customers/cus_1");
    assert_eq!(
        client.headers(&delete),
        vec![pair("Authorization", "Basic c2tfdGVzdF8xMjM6")]
    );
}

#[test]
fn the_account_of_the_request_beats_that_of_the_client() {
    let plain = client();
    let for_a = plain.with_stripe_account_id("A");
    let bare: ApiRequest<()> = ApiRequest::get("/customers");
    let for_b: ApiRequest<()> = ApiRequest::get("/customers").for_stripe_account("B");
    assert_eq!(for_b.stripe_account(), Some(&"B".to_string()));

    let account = |headers: Vec<(String, String)>| -> Vec<String> {
        headers.into_iter().filter(|h| h.0 == "Stripe-Account").map(|h| h.1).collect()
    };
    assert_eq!(account(for_a.headers(&for_b)), vec!["B".to_string()]);
    assert_eq!(account(for_a.headers(&bare)), vec!["A".to_string()]);
    assert_eq!(account(plain.headers(&for_b)), vec!["B".to_string()]);
    assert_eq!(account(plain.headers(&bare)), Vec::<String>::new());
    assert_eq!(for_a.headers(&for_b).len(), 2);
    assert_eq!(plain.headers(&bare).len(), 1);
}

#[test]
fn resolving_twice_gives_the_same_request() {
    let client = client().with_stripe_account_id("acct_A");
    let build = || -> ApiRequest<()> {
        let mut params = Params::new();
        params.put_str("", "email", "jdoe@example.org");
        params.put_opt_u64("", "amount", Some(2000));
        ApiRequest::post("/charges").with_body_params(params)
    };
    let first = client.resolve(&build());
    let second = client.resolve(&build());
    assert_eq!(first, second);
    assert_eq!(first.encoded_body, Some(b"email=jdoe%40example.org&amount=2000".to_vec()));
}

#[test]
fn status_200_decodes_the_value() {
    let body = r#"{"id":"cus_1","account_balance":0,"created":1690000000,"livemode":false}"#;
    let result = process_response(Ok(respond(200, body)), decode_id, decode_envelope);
    assert_eq!(result, Ok("cus_1".to_string()));
}

#[test]
fn status_402_yields_the_reported_failure() {
    let body = r#"{"error":{"message":"Your card was declined.","type":"card_error","code":"card_declined"}}"#;
    let result = process_response(Ok(respond(402, body)), decode_id, decode_envelope);
    assert_eq!(
        result,
        Err(ApiError::Api {
            http_status: 402,
            code: Some("card_declined".to_string()),
            error_type: Some("card_error".to_string()),
            message: Some("Your card was declined.".to_string()),
            param: None,
        })
    );
    assert_eq!(result.unwrap_err().http_status(), Some(402));
}

#[test]
fn status_500_with_an_unreadable_body_is_a_decode_failure() {
    let result = process_response(Ok(respond(500, "<html>oops</html>")), decode_id, decode_envelope);
    match result {
        Err(ApiError::Decode(why)) => assert!(!why.is_empty()),
        other => panic!("expected a decode failure, got {:?}", other),
    }
}

#[test]
fn status_200_with_an_unexpected_body_is_a_decode_failure() {
    let body = r#"{"error":{"message":"no"}}"#;
    let result = process_response(Ok(respond(200, body)), decode_id, decode_envelope);
    assert_eq!(result, Err(ApiError::Decode("missing field `id`".to_string())));
    assert_eq!(result.unwrap_err().http_status(), None);
}

#[test]
fn only_status_200_is_success() {
    let body = r#"{"id":"cus_1"}"#;
    for status in [201u16, 204, 299, 199, 301, 404] {
        let result = process_response(Ok(respond(status, body)), decode_id, decode_envelope);
        assert_eq!(result, Err(ApiError::Decode("missing field `error`".to_string())));
    }
    let envelope = r#"{"error":{}}"#;
    let result = process_response(Ok(respond(404, envelope)), decode_id, decode_envelope);
    assert_eq!(
        result,
        Err(ApiError::Api {
            http_status: 404,
            code: None,
            error_type: None,
            message: None,
            param: None,
        })
    );
}

#[test]
fn the_decoder_that_the_status_rules_out_is_not_called() {
    let never = |_: Vec<u8>| -> Result<RequestError, String> { panic!("the envelope decoder ran") };
    let result = process_response(Ok(respond(200, r#"{"id":"cus_1"}"#)), decode_id, never);
    assert_eq!(result, Ok("cus_1".to_string()));

    let never = |_: Vec<u8>| -> Result<String, String> { panic!("the value decoder ran") };
    let result = process_response(Ok(respond(400, r#"{"error":{"param":"email"}}"#)), never, decode_envelope);
    assert_eq!(
        result,
        Err(ApiError::Api {
            http_status: 400,
            code: None,
            error_type: None,
            message: None,
            param: Some("email".to_string()),
        })
    );
}

#[test]
fn the_status_alone_selects_the_decoding() {
    assert_eq!(decoding(200), Decoding::Value);
    for status in [0u16, 100, 199, 201, 204, 299, 300, 402, 500, u16::MAX] {
        assert_eq!(decoding(status), Decoding::Envelope);
    }
}

#[test]
fn a_call_is_pending_until_the_transport_answers() {
    let pending: ResponseState<u8> = ResponseState::pending();
    assert!(matches!(pending, ResponseState::Pending));
    assert_eq!(pending.into_result(), None);

    let read = ResponseState::<u8>::pending().receive(Ok(respond(200, "7")));
    match &read {
        ResponseState::BodyRead(response) => assert_eq!(response, &respond(200, "7")),
        other => panic!("expected the body to be read, got {:?}", other),
    }
    assert_eq!(read.into_result(), None);

    let failed = ResponseState::<u8>::pending().receive(Err("timed out".to_string()));
    assert!(matches!(failed, ResponseState::TransportFailed(_)));
    assert_eq!(failed.into_result(), Some(Err(ApiError::Transport("timed out".to_string()))));
}

#[test]
fn decoding_ends_a_call() {
    let done = ResponseState::value_decoded(Ok(7u8));
    assert!(matches!(done, ResponseState::DecodeSuccess(7)));
    assert_eq!(done.into_result(), Some(Ok(7u8)));

    let failed = ResponseState::<u8>::value_decoded(Err("bad".to_string()));
    assert!(matches!(failed, ResponseState::DecodeFailedBoth(_)));
    assert_eq!(failed.into_result(), Some(Err(ApiError::Decode("bad".to_string()))));

    let failed = ResponseState::<u8>::envelope_decoded(503, Err("bad".to_string()));
    assert!(matches!(failed, ResponseState::DecodeFailedBoth(_)));
    assert_eq!(failed.into_result(), Some(Err(ApiError::Decode("bad".to_string()))));

    let envelope = RequestError {
        message: Some("m".to_string()),
        error_type: Some("t".to_string()),
        code: Some("c".to_string()),
        param: Some("p".to_string()),
    };
    let reported = ResponseState::<u8>::envelope_decoded(429, Ok(envelope));
    assert!(matches!(reported, ResponseState::DecodeAsApiError { status: 429, .. }));
    assert_eq!(
        reported.into_result(),
        Some(Err(ApiError::Api {
            http_status: 429,
            code: Some("c".to_string()),
            error_type: Some("t".to_string()),
            message: Some("m".to_string()),
            param: Some("p".to_string()),
        }))
    );
}

#[test]
fn a_failed_transport_is_not_decoded() {
    let value = |_: Vec<u8>| -> Result<String, String> { panic!("nothing to decode") };
    let envelope = |_: Vec<u8>| -> Result<RequestError, String> { panic!("nothing to decode") };
    let result = process_response(Err("dns".to_string()), value, envelope);
    assert_eq!(result, Err(ApiError::Transport("dns".to_string())));
}

#[test]
fn execute_sends_the_resolved_request_once() {
    let client = client();
    let request: ApiRequest<String> = ApiRequest::get("/customers/cus_1");
    let expected = client.resolve(&request);
    let mut calls = 0;
    let send = |sent: ResolvedRequest| -> Result<RawResponse, String> {
        calls += 1;
        assert_eq!(sent, expected);
        Ok(respond(200, r#"{"id":"cus_1"}"#))
    };
    let result = client.execute(&request, send, decode_id, decode_envelope);
    assert_eq!(result, Ok("cus_1".to_string()));
    assert_eq!(calls, 1);
}

#[test]
fn a_transport_failure_is_handed_on() {
    let client = client();
    let request: ApiRequest<String> = ApiRequest::post("/customers");
    let send = |_: ResolvedRequest| -> Result<RawResponse, String> {
        Err("connection refused".to_string())
    };
    let value = |_: Vec<u8>| -> Result<String, String> { panic!("nothing to decode") };
    let envelope = |_: Vec<u8>| -> Result<RequestError, String> { panic!("nothing to decode") };
    let result = client.execute(&request, send, value, envelope);
    assert_eq!(result, Err(ApiError::Transport("connection refused".to_string())));
}

#[test]
fn the_shorthands_build_the_request_they_name() {
    let client = client();
    let seen = std::cell::RefCell::new(Vec::new());
    let send = |sent: ResolvedRequest| -> Result<RawResponse, String> {
        seen.borrow_mut().push((sent.method, sent.full_url.clone(), sent.encoded_body.clone()));
        Ok(respond(200, r#"{"id":"x"}"#))
    };
    let mut params = Params::new();
    params.put_str("", "limit", "2");
    let mut body = Params::new();
    body.put_str("", "email", "a@b.c");
    let mut filter = Params::new();
    filter.put_str("", "force", "true");

    assert_eq!(client.get("/a", send, decode_id, decode_envelope), Ok("x".to_string()));
    assert_eq!(client.get_with_params("/a", params, send, decode_id, decode_envelope), Ok("x".to_string()));
    assert_eq!(client.post("/b", send, decode_id, decode_envelope), Ok("x".to_string()));
    assert_eq!(client.post_with_params("/b", body, send, decode_id, decode_envelope), Ok("x".to_string()));
    assert_eq!(client.delete("/c", send, decode_id, decode_envelope), Ok("x".to_string()));
    assert_eq!(client.delete_with_params("/c", filter, send, decode_id, decode_envelope), Ok("x".to_string()));

    let base = "https://api.stripe.com/v1";
    assert_eq!(
        seen.into_inner(),
        vec![
            (Method::Get, format!("{}/a", base), None),
            (Method::Get, format!("{}/a?limit=2", base), None),
            (Method::Post, format!("{}/b", base), Some(Vec::new())),
            (Method::Post, format!("{}/b", base), Some(b"email=a%40b.c".to_vec())),
            (Method::Delete, format!("{}/c", base), None),
            (Method::Delete, format!("{}/c?force=true", base), None),
        ]
    );
}
