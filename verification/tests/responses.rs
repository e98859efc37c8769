use mastodon_connector::client::{
    account_response, apply_login, home_request, home_response, publish_response,
};
use mastodon_connector::http::{ApiError, HttpOutcome};
use mastodon_connector::store::CredentialStore;

fn ok(body: &str) -> HttpOutcome {
    HttpOutcome::Response { status: 200, body: body.to_string() }
}

const TOKEN_BODY: &str = r#"{
    "access_token": "tok-123",
    "token_type": "Bearer",
    "scope": "read write",
    "created_at": 1700000000
}"#;

#[test]
fn login_success_commits_store() {
    let mut store = CredentialStore::new();
    let row = apply_login(&mut store, "masto.example", ok(TOKEN_BODY)).expect("login succeeds");
    assert_eq!(row.token_type, "Bearer");
    assert_eq!(row.scope, "read write");
    assert_eq!(row.created_at, 1700000000);
    assert_eq!(store.fetch_env("PG_MASTO_SERVER"), "masto.example");
    assert_eq!(store.fetch_env("PG_MASTO_BEARER"), "tok-123");
    let req = home_request(&store);
    assert_eq!(
        req.headers,
        vec![("Authorization".to_string(), "Bearer tok-123".to_string())]
    );
}

#[test]
fn login_remote_error_keeps_store() {
    let mut store = CredentialStore::new();
    let err = apply_login(
        &mut store,
        "masto.example",
        HttpOutcome::Response { status: 401, body: "unauthorized".to_string() },
    )
    .expect_err("login fails");
    assert!(matches!(err.cause, ApiError::Remote(401)));
    assert_eq!(store.fetch_env("PG_MASTO_SERVER"), "");
    assert_eq!(store.fetch_env("PG_MASTO_BEARER"), "");
}

#[test]
fn login_malformed_body_is_decode_error() {
    let mut store = CredentialStore::new();
    let err = apply_login(&mut store, "masto.example", ok("not json"))
        .expect_err("login fails");
    assert!(matches!(err.cause, ApiError::Decode));
    assert_eq!(store.fetch_env("PG_MASTO_BEARER"), "");
}

#[test]
fn login_fractional_created_at_is_decode_error() {
    let mut store = CredentialStore::new();
    let body = r#"{"access_token":"t","token_type":"Bearer","scope":"read","created_at":1.5}"#;
    let err = apply_login(&mut store, "masto.example", ok(body)).expect_err("login fails");
    assert!(matches!(err.cause, ApiError::Decode));
}

const TWO_STATUSES: &str = r#"[
    {
        "id": "1",
        "created_at": "2023-05-01T10:00:00.000Z",
        "sensitive": false,
        "visibility": "public",
        "account": {"id": "7", "acct": "ada@masto.example", "bot": false},
        "reblog": {"id": "90", "content": "R1"},
        "content": "ignored original"
    },
    {
        "id": "2",
        "created_at": "2023-05-01T11:00:00.000Z",
        "sensitive": true,
        "visibility": "private",
        "account": {"id": "8", "acct": "bob", "bot": true},
        "reblog": null,
        "content": "C2"
    }
]"#;

#[test]
fn home_two_rows_boost_then_toot() {
    let rows = home_response(ok(TWO_STATUSES)).expect("fetch succeeds");
    assert_eq!(rows.len(), 2);
    assert_eq!(rows[0].kind, "Boost");
    assert_eq!(rows[0].content, "R1");
    assert_eq!(rows[1].kind, "Toot");
    assert_eq!(rows[1].content, "C2");
}

#[test]
fn home_rows_carry_account_fields() {
    let rows = home_response(ok(TWO_STATUSES)).expect("fetch succeeds");
    assert_eq!(rows[0].toot_id, "1");
    assert_eq!(rows[0].created_at, "2023-05-01T10:00:00.000Z");
    assert!(!rows[0].sensitive);
    assert_eq!(rows[0].visibility, "public");
    assert_eq!(rows[0].acct, "ada@masto.example");
    assert_eq!(rows[0].account_id, "7");
    assert!(!rows[0].bot);
    assert!(rows[1].sensitive);
    assert_eq!(rows[1].visibility, "private");
    assert!(rows[1].bot);
}

#[test]
fn home_timeout_is_timeout_classified() {
    let err = home_response(HttpOutcome::TimedOut).expect_err("fetch fails");
    assert!(matches!(err, ApiError::Timeout));
}

#[test]
fn home_network_failure_keeps_message() {
    let err = home_response(HttpOutcome::NetworkFailure("connection refused".to_string()))
        .expect_err("fetch fails");
    assert!(matches!(err, ApiError::Network(msg) if msg == "connection refused"));
}

#[test]
fn home_remote_error_carries_status() {
    let outcome = HttpOutcome::Response { status: 500, body: "boom".to_string() };
    let err = home_response(outcome).expect_err("fetch fails");
    assert!(matches!(err, ApiError::Remote(500)));
}

#[test]
fn home_invalid_json_is_decode_error() {
    let err = home_response(ok("{ nope")).expect_err("fetch fails");
    assert!(matches!(err, ApiError::Decode));
}

#[test]
fn home_missing_field_is_decode_error() {
    let body = r#"[{"id": "1", "created_at": "x", "sensitive": false, "visibility": "public",
        "account": {"id": "7", "acct": "ada", "bot": false}}]"#;
    let err = home_response(ok(body)).expect_err("fetch fails");
    assert!(matches!(err, ApiError::Decode));
}

#[test]
fn home_wrongly_typed_reblog_is_decode_error() {
    let body = r#"[{"id": "1", "created_at": "x", "sensitive": false, "visibility": "public",
        "account": {"id": "7", "acct": "ada", "bot": false}, "reblog": 3, "content": "c"}]"#;
    let err = home_response(ok(body)).expect_err("fetch fails");
    assert!(matches!(err, ApiError::Decode));
}

#[test]
fn home_absent_reblog_is_toot() {
    let body = r#"[{"id": "1", "created_at": "x", "sensitive": false, "visibility": "public",
        "account": {"id": "7", "acct": "ada", "bot": false}, "content": "mine"}]"#;
    let rows = home_response(ok(body)).expect("fetch succeeds");
    assert_eq!(rows[0].kind, "Toot");
    assert_eq!(rows[0].content, "mine");
}

#[test]
fn home_unknown_fields_ignored() {
    let body = r#"[{"id": "1", "created_at": "x", "sensitive": false, "visibility": "public",
        "account": {"id": "7", "acct": "ada", "bot": false, "followers": 10},
        "content": "mine", "language": "en"}]"#;
    let rows = home_response(ok(body)).expect("fetch succeeds");
    assert_eq!(rows[0].toot_id, "1");
}

#[test]
fn home_empty_timeline_yields_no_rows() {
    let rows = home_response(ok("[]")).expect("fetch succeeds");
    assert!(rows.is_empty());
}

#[test]
fn account_rows_omit_account_id_and_bot() {
    let rows = account_response(ok(TWO_STATUSES)).expect("fetch succeeds");
    assert_eq!(rows.len(), 2);
    assert_eq!(rows[0].id, "1");
    assert_eq!(rows[0].kind, "Boost");
    assert_eq!(rows[0].content, "R1");
    assert_eq!(rows[1].kind, "Toot");
    assert_eq!(rows[1].content, "C2");
    assert_eq!(rows[1].acct, "bob");
}

#[test]
fn account_timeout_is_timeout_classified() {
    let err = account_response(HttpOutcome::TimedOut).expect_err("fetch fails");
    assert!(matches!(err, ApiError::Timeout));
}

#[test]
fn publish_returns_new_id() {
    let id = publish_response(ok(r#"{"id": "555", "uri": "ignored"}"#)).expect("publish succeeds");
    assert_eq!(id, "555");
}

#[test]
fn publish_malformed_body_is_decode_error() {
    let err = publish_response(ok(r#"{"uri": "no id"}"#)).expect_err("publish fails");
    assert!(matches!(err, ApiError::Decode));
}

#[test]
fn publish_remote_error_carries_status() {
    let outcome = HttpOutcome::Response { status: 422, body: "bad".to_string() };
    let err = publish_response(outcome).expect_err("publish fails");
    assert!(matches!(err, ApiError::Remote(422)));
}
