use mastodon_connector::store::CredentialStore;

#[test]
fn set_then_fetch_returns_value() {
    let mut store = CredentialStore::new();
    store.set_env("PG_MASTO_SERVER", "masto.example");
    assert_eq!(store.fetch_env("PG_MASTO_SERVER"), "masto.example");
}

#[test]
fn set_then_fetch_empty_value() {
    let mut store = CredentialStore::new();
    store.set_env("PG_MASTO_BEARER", "");
    assert_eq!(store.fetch_env("PG_MASTO_BEARER"), "");
}

#[test]
fn fetch_unset_returns_empty() {
    let store = CredentialStore::new();
    assert_eq!(store.fetch_env("PG_MASTO_CLIENT_ID"), "");
    assert_eq!(store.fetch_env("anything-else"), "");
}

#[test]
fn set_overwrites_previous() {
    let mut store = CredentialStore::new();
    store.set_env("PG_MASTO_BEARER", "first");
    store.set_env("PG_MASTO_BEARER", "second");
    assert_eq!(store.fetch_env("PG_MASTO_BEARER"), "second");
}

#[test]
fn set_returns_stored_value() {
    let mut store = CredentialStore::new();
    let echoed = store.set_env("PG_MASTO_CLIENT_ID", "abc123");
    assert_eq!(echoed, "abc123");
}

#[test]
fn keys_are_independent() {
    let mut store = CredentialStore::new();
    store.set_env("PG_MASTO_SERVER", "masto.example");
    store.set_env("PG_MASTO_BEARER", "tok");
    assert_eq!(store.fetch_env("PG_MASTO_SERVER"), "masto.example");
    assert_eq!(store.fetch_env("PG_MASTO_BEARER"), "tok");
}
