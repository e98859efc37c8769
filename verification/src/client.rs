//! The four remote operations: authenticate, fetch home timeline, fetch an
//! account's timeline, publish a status.
//!
//! Each operation is a pair. The request builder turns the stored session
//! state and the caller's arguments into one [`HttpRequest`]: exact URL,
//! bearer-auth header, body and the fixed timeout. The response applier takes
//! the [`HttpOutcome`] the application observed, classifies failures
//! (timeout, connection, non-2xx, undecodable body) and decodes and projects
//! a successful body. Only a successful login commits session state.

use vstd::prelude::*;
use vstd::string::StringExecFns;

use crate::http::{
    classify_outcome, http_error_of, pairs_view, response_body, ApiError, HttpOutcome, HttpRequest,
    Method, RequestBody, REQUEST_TIMEOUT_SECS,
};
use crate::json::{parse_json, Json};
use crate::resources::{
    decode_just_id, decode_statuses, decode_token, statuses_view, AccessTokenView, StatusView,
};
use crate::rows::{
    account_rows_of, account_rows_view, home_rows_of, home_rows_view, login_row_of,
    project_account_rows, project_home_rows, AccountRow, HomeRow, LoginRow,
};
use crate::store::{
    bearer_key, client_id_key, client_secret_key, env_value, server_key, CredentialStore,
};

verus! {

/// A failed authentication, carrying the underlying cause.
#[derive(Debug)]
pub struct AuthenticationError {
    pub cause: ApiError,
}

/// The form parameters of a password-grant token request, in order.
pub open spec fn login_form(
    client_id: Seq<char>,
    client_secret: Seq<char>,
    username: Seq<char>,
    password: Seq<char>,
) -> Seq<(Seq<char>, Seq<char>)> {
    seq![
        ("client_id"@, client_id),
        ("client_secret"@, client_secret),
        ("grant_type"@, "password"@),
        ("username"@, username),
        ("password"@, password),
        ("scope"@, "read write"@),
    ]
}

/// The Authorization header value of an authenticated request: the stored
/// bearer token, empty where no login has stored one.
pub open spec fn auth_header(m: Map<Seq<char>, Seq<char>>) -> Seq<char> {
    "Bearer "@ + env_value(m, bearer_key())
}

/// An https URL on the given host.
fn https_url(host: &str, path: &str) -> (r: String)
    ensures
        r@ == "https://"@ + host@ + path@,
{
    String::from_str("https://").concat(host).concat(path)
}

/// The Authorization header value from the stored bearer token.
fn bearer_header_value(store: &CredentialStore) -> (r: String)
    ensures
        r@ == auth_header(store@),
{
    let token = store.fetch_env("PG_MASTO_BEARER");
    String::from_str("Bearer ").concat(token.as_str())
}

/// Builds the password-grant token request: a POST to
/// `{server}/oauth/token`, form-encoded, carrying the stored client id and
/// client secret, the caller's credentials and the scope "read write", with
/// the fixed timeout and no headers of its own.
pub fn login_request(
    store: &CredentialStore,
    username: &str,
    password: &str,
    server: &str,
) -> (r: HttpRequest)
    ensures
        r.method is Post,
        r.url@ == "https://"@ + server@ + "/oauth/token"@,
        r.headers@.len() == 0,
        r.timeout_secs == REQUEST_TIMEOUT_SECS,
        r.body matches RequestBody::Form(params) && pairs_view(params@) == login_form(
            env_value(store@, client_id_key()),
            env_value(store@, client_secret_key()),
            username@,
            password@,
        ),
{
    let client_id = store.fetch_env("PG_MASTO_CLIENT_ID");
    let client_secret = store.fetch_env("PG_MASTO_CLIENT_SECRET");
    let mut params: Vec<(String, String)> = Vec::new();
    params.push((String::from_str("client_id"), client_id));
    params.push((String::from_str("client_secret"), client_secret));
    params.push((String::from_str("grant_type"), String::from_str("password")));
    params.push((String::from_str("username"), username.to_owned()));
    params.push((String::from_str("password"), password.to_owned()));
    params.push((String::from_str("scope"), String::from_str("read write")));
    proof {
        assert(pairs_view(params@) =~= login_form(
            env_value(store@, client_id_key()),
            env_value(store@, client_secret_key()),
            username@,
            password@,
        ));
    }
    HttpRequest {
        method: Method::Post,
        url: https_url(server, "/oauth/token"),
        headers: Vec::new(),
        body: RequestBody::Form(params),
        timeout_secs: REQUEST_TIMEOUT_SECS,
    }
}

/// What an access-token response outcome amounts to: the decoded token on a
/// 2xx response with a well-shaped body, the exact error otherwise.
pub open spec fn token_result(o: HttpOutcome) -> Result<AccessTokenView, ApiError> {
    match http_error_of(o) {
        Some(e) => Err(e),
        None => match crate::json::parsed_json(response_body(o)) {
            Some(j) => match crate::resources::token_of_json(j) {
                Some(t) => Ok(t),
                None => Err(ApiError::Decode),
            },
            None => Err(ApiError::Decode),
        },
    }
}

/// Applies the outcome of a login request: on success returns the login row
/// and commits the server hostname and the bearer token to the store; on any
/// failure returns the cause and leaves the store untouched.
pub fn apply_login(store: &mut CredentialStore, server: &str, outcome: HttpOutcome) -> (r: Result<
    LoginRow,
    AuthenticationError,
>)
    ensures
        match r {
            Ok(row) => token_result(outcome) matches Ok(t) && row@ == login_row_of(t)
                && final(store)@ == old(store)@.insert(server_key(), server@).insert(
                bearer_key(),
                t.access_token,
            ),
            Err(e) => token_result(outcome) == Err::<AccessTokenView, ApiError>(e.cause)
                && final(store)@ == old(store)@,
        },
{
    let body = match classify_outcome(outcome) {
        Ok(b) => b,
        Err(e) => {
            return Err(AuthenticationError { cause: e });
        },
    };
    let token = match parse_json(body.as_str()) {
        Some(j) => match decode_token(&j) {
            Some(t) => t,
            None => {
                return Err(AuthenticationError { cause: ApiError::Decode });
            },
        },
        None => {
            return Err(AuthenticationError { cause: ApiError::Decode });
        },
    };
    proof {
        reveal_strlit("PG_MASTO_SERVER");
        reveal_strlit("PG_MASTO_BEARER");
    }
    store.set_env("PG_MASTO_SERVER", server);
    store.set_env("PG_MASTO_BEARER", token.access_token.as_str());
    Ok(LoginRow {
        token_type: token.token_type,
        scope: token.scope,
        created_at: token.created_at,
    })
}

/// Builds the home-timeline request: a GET to
/// `{server}/api/v1/timelines/home` under the stored server, with the stored
/// bearer token and the fixed timeout.
pub fn home_request(store: &CredentialStore) -> (r: HttpRequest)
    ensures
        r.method is Get,
        r.url@ == "https://"@ + env_value(store@, server_key()) + "/api/v1/timelines/home"@,
        pairs_view(r.headers@) == seq![("Authorization"@, auth_header(store@))],
        r.body is NoBody,
        r.timeout_secs == REQUEST_TIMEOUT_SECS,
{
    let server = store.fetch_env("PG_MASTO_SERVER");
    let mut headers: Vec<(String, String)> = Vec::new();
    headers.push((String::from_str("Authorization"), bearer_header_value(store)));
    proof {
        assert(pairs_view(headers@) =~= seq![("Authorization"@, auth_header(store@))]);
    }
    HttpRequest {
        method: Method::Get,
        url: https_url(server.as_str(), "/api/v1/timelines/home"),
        headers,
        body: RequestBody::NoBody,
        timeout_secs: REQUEST_TIMEOUT_SECS,
    }
}

/// Builds an account-timeline request: a GET to
/// `{server}/api/v1/accounts/{account_id}/statuses` under the stored server,
/// with the stored bearer token and the fixed timeout.
pub fn account_request(store: &CredentialStore, account_id: &str) -> (r: HttpRequest)
    ensures
        r.method is Get,
        r.url@ == "https://"@ + env_value(store@, server_key()) + "/api/v1/accounts/"@
            + account_id@ + "/statuses"@,
        pairs_view(r.headers@) == seq![("Authorization"@, auth_header(store@))],
        r.body is NoBody,
        r.timeout_secs == REQUEST_TIMEOUT_SECS,
{
    let server = store.fetch_env("PG_MASTO_SERVER");
    let url = String::from_str("https://").concat(server.as_str()).concat(
        "/api/v1/accounts/",
    ).concat(account_id).concat("/statuses");
    let mut headers: Vec<(String, String)> = Vec::new();
    headers.push((String::from_str("Authorization"), bearer_header_value(store)));
    proof {
        assert(pairs_view(headers@) =~= seq![("Authorization"@, auth_header(store@))]);
    }
    HttpRequest {
        method: Method::Get,
        url,
        headers,
        body: RequestBody::NoBody,
        timeout_secs: REQUEST_TIMEOUT_SECS,
    }
}

/// What a timeline outcome amounts to: the decoded status list on a 2xx
/// response with a well-shaped body, the exact error otherwise.
pub open spec fn timeline_result(o: HttpOutcome) -> Result<Seq<StatusView>, ApiError> {
    match http_error_of(o) {
        Some(e) => Err(e),
        None => match crate::json::parsed_json(response_body(o)) {
            Some(j) => match crate::resources::statuses_of_json(j) {
                Some(s) => Ok(s),
                None => Err(ApiError::Decode),
            },
            None => Err(ApiError::Decode),
        },
    }
}

/// Decodes a timeline outcome to its status list, or the exact error.
fn timeline_statuses(outcome: HttpOutcome) -> (r: Result<
    Vec<crate::resources::Status>,
    ApiError,
>)
    ensures
        match r {
            Ok(v) => timeline_result(outcome) matches Ok(s) && statuses_view(v@) == s,
            Err(e) => timeline_result(outcome) == Err::<Seq<StatusView>, ApiError>(e),
        },
{
    let body = match classify_outcome(outcome) {
        Ok(b) => b,
        Err(e) => {
            return Err(e);
        },
    };
    match parse_json(body.as_str()) {
        Some(j) => match decode_statuses(&j) {
            Some(v) => Ok(v),
            None => Err(ApiError::Decode),
        },
        None => Err(ApiError::Decode),
    }
}

/// Applies the outcome of a home-timeline request: the projected nine-field
/// rows, in the response's order, or the exact error.
pub fn home_response(outcome: HttpOutcome) -> (r: Result<Vec<HomeRow>, ApiError>)
    ensures
        match r {
            Ok(rows) => timeline_result(outcome) matches Ok(s) && home_rows_view(rows@)
                == home_rows_of(s),
            Err(e) => timeline_result(outcome) == Err::<Seq<StatusView>, ApiError>(e),
        },
{
    match timeline_statuses(outcome) {
        Ok(statuses) => Ok(project_home_rows(&statuses)),
        Err(e) => Err(e),
    }
}

/// Applies the outcome of an account-timeline request: the projected
/// seven-field rows, in the response's order, or the exact error.
pub fn account_response(outcome: HttpOutcome) -> (r: Result<Vec<AccountRow>, ApiError>)
    ensures
        match r {
            Ok(rows) => timeline_result(outcome) matches Ok(s) && account_rows_view(rows@)
                == account_rows_of(s),
            Err(e) => timeline_result(outcome) == Err::<Seq<StatusView>, ApiError>(e),
        },
{
    match timeline_statuses(outcome) {
        Ok(statuses) => Ok(project_account_rows(&statuses)),
        Err(e) => Err(e),
    }
}

/// The JSON body of a publish request: exactly the four fields `status`,
/// `sensitive`, `spoiler_text` and `visibility`, in that order.
pub open spec fn is_publish_body(
    j: Json,
    status: Seq<char>,
    sensitive: bool,
    spoiler: Seq<char>,
    visibility: Seq<char>,
) -> bool {
    &&& j matches Json::Obj(fields)
    &&& fields@.len() == 4
    &&& fields@[0].0@ == "status"@
    &&& fields@[0].1 matches Json::Str(s) && s@ == status
    &&& fields@[1].0@ == "sensitive"@
    &&& fields@[1].1 == Json::Bool(sensitive)
    &&& fields@[2].0@ == "spoiler_text"@
    &&& fields@[2].1 matches Json::Str(sp) && sp@ == spoiler
    &&& fields@[3].0@ == "visibility"@
    &&& fields@[3].1 matches Json::Str(v) && v@ == visibility
}

/// Builds a publish request: a POST to `{server}/api/v1/statuses` under the
/// stored server, with the stored bearer token, a JSON body carrying the
/// text, the sensitivity flag, the spoiler text and the visibility, and the
/// fixed timeout.
pub fn publish_request(
    store: &CredentialStore,
    text: &str,
    sensitive: bool,
    spoiler_text: &str,
    visibility: &str,
) -> (r: HttpRequest)
    ensures
        r.method is Post,
        r.url@ == "https://"@ + env_value(store@, server_key()) + "/api/v1/statuses"@,
        pairs_view(r.headers@) == seq![
            ("Authorization"@, auth_header(store@)),
            ("Content-Type"@, "application/json"@),
        ],
        r.body matches RequestBody::JsonBody(j) && is_publish_body(
            j,
            text@,
            sensitive,
            spoiler_text@,
            visibility@,
        ),
        r.timeout_secs == REQUEST_TIMEOUT_SECS,
{
    let server = store.fetch_env("PG_MASTO_SERVER");
    let mut headers: Vec<(String, String)> = Vec::new();
    headers.push((String::from_str("Authorization"), bearer_header_value(store)));
    headers.push((String::from_str("Content-Type"), String::from_str("application/json")));
    proof {
        assert(pairs_view(headers@) =~= seq![
            ("Authorization"@, auth_header(store@)),
            ("Content-Type"@, "application/json"@),
        ]);
    }
    let mut fields: Vec<(String, Json)> = Vec::new();
    fields.push((String::from_str("status"), Json::Str(text.to_owned())));
    fields.push((String::from_str("sensitive"), Json::Bool(sensitive)));
    fields.push((String::from_str("spoiler_text"), Json::Str(spoiler_text.to_owned())));
    fields.push((String::from_str("visibility"), Json::Str(visibility.to_owned())));
    HttpRequest {
        method: Method::Post,
        url: https_url(server.as_str(), "/api/v1/statuses"),
        headers,
        body: RequestBody::JsonBody(Json::Obj(fields)),
        timeout_secs: REQUEST_TIMEOUT_SECS,
    }
}

/// Builds the plain publish request: `sensitive` false and an empty spoiler
/// text, always.
pub fn toot_request(store: &CredentialStore, text: &str, visibility: &str) -> (r: HttpRequest)
    ensures
        r.method is Post,
        r.url@ == "https://"@ + env_value(store@, server_key()) + "/api/v1/statuses"@,
        pairs_view(r.headers@) == seq![
            ("Authorization"@, auth_header(store@)),
            ("Content-Type"@, "application/json"@),
        ],
        r.body matches RequestBody::JsonBody(j) && is_publish_body(
            j,
            text@,
            false,
            ""@,
            visibility@,
        ),
        r.timeout_secs == REQUEST_TIMEOUT_SECS,
{
    publish_request(store, text, false, "", visibility)
}

/// Builds the content-warning publish request: `sensitive` true and the
/// warning as spoiler text, always.
pub fn toot_cw_request(
    store: &CredentialStore,
    cw: &str,
    text: &str,
    visibility: &str,
) -> (r: HttpRequest)
    ensures
        r.method is Post,
        r.url@ == "https://"@ + env_value(store@, server_key()) + "/api/v1/statuses"@,
        pairs_view(r.headers@) == seq![
            ("Authorization"@, auth_header(store@)),
            ("Content-Type"@, "application/json"@),
        ],
        r.body matches RequestBody::JsonBody(j) && is_publish_body(
            j,
            text@,
            true,
            cw@,
            visibility@,
        ),
        r.timeout_secs == REQUEST_TIMEOUT_SECS,
{
    publish_request(store, text, true, cw, visibility)
}

/// What a publish outcome amounts to: the new status's identifier on a 2xx
/// response with a well-shaped body, the exact error otherwise.
pub open spec fn publish_result(o: HttpOutcome) -> Result<Seq<char>, ApiError> {
    match http_error_of(o) {
        Some(e) => Err(e),
        None => match crate::json::parsed_json(response_body(o)) {
            Some(j) => match crate::resources::just_id_of_json(j) {
                Some(id) => Ok(id),
                None => Err(ApiError::Decode),
            },
            None => Err(ApiError::Decode),
        },
    }
}

/// Applies the outcome of a publish request: the new status's identifier, or
/// the exact error. An error means the operation did not complete, never
/// that an empty status was posted.
pub fn publish_response(outcome: HttpOutcome) -> (r: Result<String, ApiError>)
    ensures
        match r {
            Ok(id) => publish_result(outcome) == Ok::<Seq<char>, ApiError>(id@),
            Err(e) => publish_result(outcome) == Err::<Seq<char>, ApiError>(e),
        },
{
    let body = match classify_outcome(outcome) {
        Ok(b) => b,
        Err(e) => {
            return Err(e);
        },
    };
    match parse_json(body.as_str()) {
        Some(j) => match decode_just_id(&j) {
            Some(id) => Ok(id),
            None => Err(ApiError::Decode),
        },
        None => Err(ApiError::Decode),
    }
}

/// Law: once a successful login has committed the server and the bearer
/// token, the Authorization header of every subsequent authenticated request
/// carries exactly the token the access-token response delivered.
pub proof fn lemma_login_then_authorized(
    m: Map<Seq<char>, Seq<char>>,
    server: Seq<char>,
    token: Seq<char>,
)
    ensures
        auth_header(m.insert(server_key(), server).insert(bearer_key(), token)) == "Bearer "@
            + token,
{
}

} // verus!
