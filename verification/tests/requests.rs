use mastodon_connector::client::{
    account_request, home_request, login_request, toot_cw_request, toot_request,
};
use mastodon_connector::http::{Method, RequestBody};
use mastodon_connector::json::Json;
use mastodon_connector::store::CredentialStore;

fn logged_in_store() -> CredentialStore {
    let mut store = CredentialStore::new();
    store.set_env("PG_MASTO_SERVER", "masto.example");
    store.set_env("PG_MASTO_BEARER", "tok-123");
    store
}

#[test]
fn login_request_shape() {
    let mut store = CredentialStore::new();
    store.set_env("PG_MASTO_CLIENT_ID", "cid");
    store.set_env("PG_MASTO_CLIENT_SECRET", "cs");
    let req = login_request(&store, "ada", "pw", "masto.example");
    assert!(matches!(req.method, Method::Post));
    assert_eq!(req.url, "https://masto.example/oauth/token");
    assert!(req.headers.is_empty());
    assert_eq!(req.timeout_secs, 10);
    match &req.body {
        RequestBody::Form(params) => {
            let expected: Vec<(String, String)> = vec![
                ("client_id".to_string(), "cid".to_string()),
                ("client_secret".to_string(), "cs".to_string()),
                ("grant_type".to_string(), "password".to_string()),
                ("username".to_string(), "ada".to_string()),
                ("password".to_string(), "pw".to_string()),
                ("scope".to_string(), "read write".to_string()),
            ];
            assert_eq!(params, &expected);
        }
        _ => panic!("login request must carry a form body"),
    }
}

#[test]
fn login_request_empty_client_credentials() {
    let store = CredentialStore::new();
    let req = login_request(&store, "ada", "pw", "masto.example");
    match &req.body {
        RequestBody::Form(params) => {
            assert_eq!(params[0], ("client_id".to_string(), "".to_string()));
            assert_eq!(params[1], ("client_secret".to_string(), "".to_string()));
        }
        _ => panic!("login request must carry a form body"),
    }
}

#[test]
fn home_request_authorization() {
    let store = logged_in_store();
    let req = home_request(&store);
    assert!(matches!(req.method, Method::Get));
    assert_eq!(req.url, "https://masto.example/api/v1/timelines/home");
    assert_eq!(
        req.headers,
        vec![("Authorization".to_string(), "Bearer tok-123".to_string())]
    );
    assert!(matches!(req.body, RequestBody::NoBody));
    assert_eq!(req.timeout_secs, 10);
}

#[test]
fn account_request_url_carries_id() {
    let store = logged_in_store();
    let req = account_request(&store, "98765");
    assert!(matches!(req.method, Method::Get));
    assert_eq!(req.url, "https://masto.example/api/v1/accounts/98765/statuses");
    assert_eq!(
        req.headers,
        vec![("Authorization".to_string(), "Bearer tok-123".to_string())]
    );
    assert_eq!(req.timeout_secs, 10);
}

fn body_fields(body: &RequestBody) -> &Vec<(String, Json)> {
    match body {
        RequestBody::JsonBody(Json::Obj(fields)) => fields,
        _ => panic!("publish request must carry a JSON object body"),
    }
}

#[test]
fn toot_request_body_not_sensitive() {
    let store = logged_in_store();
    let req = toot_request(&store, "hello", "public");
    assert!(matches!(req.method, Method::Post));
    assert_eq!(req.url, "https://masto.example/api/v1/statuses");
    let fields = body_fields(&req.body);
    assert_eq!(fields.len(), 4);
    assert_eq!(fields[0].0, "status");
    assert!(matches!(&fields[0].1, Json::Str(s) if s == "hello"));
    assert_eq!(fields[1].0, "sensitive");
    assert!(matches!(fields[1].1, Json::Bool(false)));
    assert_eq!(fields[2].0, "spoiler_text");
    assert!(matches!(&fields[2].1, Json::Str(s) if s.is_empty()));
    assert_eq!(fields[3].0, "visibility");
    assert!(matches!(&fields[3].1, Json::Str(s) if s == "public"));
}

#[test]
fn toot_cw_request_body_sensitive_with_spoiler() {
    let store = logged_in_store();
    let req = toot_cw_request(&store, "politics", "hello", "unlisted");
    let fields = body_fields(&req.body);
    assert_eq!(fields.len(), 4);
    assert!(matches!(&fields[0].1, Json::Str(s) if s == "hello"));
    assert!(matches!(fields[1].1, Json::Bool(true)));
    assert!(matches!(&fields[2].1, Json::Str(s) if s == "politics"));
    assert!(matches!(&fields[3].1, Json::Str(s) if s == "unlisted"));
}

#[test]
fn publish_request_headers() {
    let store = logged_in_store();
    let req = toot_request(&store, "hello", "public");
    assert_eq!(
        req.headers,
        vec![
            ("Authorization".to_string(), "Bearer tok-123".to_string()),
            ("Content-Type".to_string(), "application/json".to_string()),
        ]
    );
    assert_eq!(req.timeout_secs, 10);
}
