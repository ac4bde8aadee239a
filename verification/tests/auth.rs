use cog_core::auth::credentials::{InstalledCredentials, WebCredentials};
use cog_core::auth::keyring::{
    add_to_index, remove_from_index, stored_account, token_file_name, KeyringBackend,
};
use cog_core::auth::oauth2::scopes;
use cog_core::auth::oauth2::{scope_for_service, TokenResponse, DEFAULT_TOKEN_URI};
use cog_core::auth::service_account::{ServiceAccountAuth, ServiceAccountKey};
use cog_core::auth::{ClientCredentials, OAuth2Client, StoredToken};
use cog_core::http::client::form_body;
use cog_core::Error;

fn installed() -> ClientCredentials {
    ClientCredentials {
        installed: Some(InstalledCredentials {
            client_id: "id".into(),
            client_secret: "secret".into(),
            auth_uri: "https://auth".into(),
            token_uri: "https://token".into(),
            redirect_uris: vec!["http://localhost".into()],
        }),
        web: None,
    }
}

fn web_only() -> ClientCredentials {
    ClientCredentials {
        installed: None,
        web: Some(WebCredentials {
            client_id: "web-id".into(),
            client_secret: "web-secret".into(),
            auth_uri: "https://auth".into(),
            token_uri: "https://web-token".into(),
            redirect_uris: vec!["https://app/cb".into(), "https://app/cb2".into()],
        }),
    }
}

fn token(access: Option<&str>, expires_at: Option<i64>) -> StoredToken {
    StoredToken {
        email: "test@example.com".into(),
        refresh_token: "refresh".into(),
        scopes: vec!["gmail".into()],
        client_name: None,
        access_token: access.map(|a| a.to_string()),
        expires_at,
    }
}

#[test]
fn client_credentials_installed() {
    let creds = installed();
    assert_eq!(creds.client_id(), Some("id"));
    assert_eq!(creds.client_secret(), Some("secret"));
}

#[test]
fn client_credentials_web_and_empty() {
    let creds = web_only();
    assert_eq!(creds.client_id(), Some("web-id"));
    assert_eq!(creds.client_secret(), Some("web-secret"));
    assert_eq!(creds.token_uri(), Some("https://web-token"));
    assert_eq!(creds.redirect_uris().len(), 2);
    assert!(creds.is_web());
    assert!(!installed().is_web());
    let none = ClientCredentials { installed: None, web: None };
    assert_eq!(none.client_id(), None);
    assert_eq!(none.token_uri(), None);
    assert!(none.redirect_uris().is_empty());
    assert!(!none.is_web());
}

#[test]
fn stored_token_expired() {
    let t = token(Some("access"), Some(chrono::Utc::now().timestamp_millis() - 10_000));
    assert!(!t.is_valid());
}

#[test]
fn stored_token_validity_margin() {
    let now = 1_000_000_000;
    assert!(token(Some("a"), Some(now + 60_001)).is_valid_at(now));
    assert!(!token(Some("a"), Some(now + 60_000)).is_valid_at(now));
    assert!(!token(None, Some(now + 600_000)).is_valid_at(now));
    assert!(!token(Some("a"), None).is_valid_at(now));
    let fresh = token(Some("a"), Some(chrono::Utc::now().timestamp_millis() + 3_600_000));
    assert!(fresh.is_valid());
}

#[test]
fn scopes_for_gmail_readonly() {
    let scopes = OAuth2Client::scopes_for_services(&["gmail"], true);
    assert!(scopes.contains(&scopes::GMAIL_READONLY));
    assert!(!scopes.contains(&scopes::GMAIL));
}

#[test]
fn scopes_for_multiple_services() {
    let scopes = OAuth2Client::scopes_for_services(&["gmail", "drive", "docs"], false);
    assert!(scopes.contains(&scopes::GMAIL));
    assert!(scopes.contains(&scopes::DRIVE));
    assert!(scopes.contains(&scopes::DOCS));
    assert!(scopes.contains(&scopes::USERINFO));
}

#[test]
fn scopes_start_with_userinfo_without_duplicates() {
    let scopes = OAuth2Client::scopes_for_services(&["drive", "unknown", "drive", "people"], true);
    assert_eq!(scopes, vec![scopes::USERINFO, scopes::DRIVE_READONLY, scopes::PEOPLE]);
    assert_eq!(OAuth2Client::scopes_for_services(&[], false), vec![scopes::USERINFO]);
    assert_eq!(scope_for_service("calendar", false), Some(scopes::CALENDAR));
    assert_eq!(scope_for_service("nothing", false), None);
}

#[test]
fn token_endpoint_defaults() {
    assert_eq!(OAuth2Client::new(installed()).token_endpoint(), "https://token");
    let none = OAuth2Client::new(ClientCredentials { installed: None, web: None });
    assert_eq!(none.token_endpoint(), DEFAULT_TOKEN_URI);
}

#[test]
fn exchange_and_refresh_params() {
    let client = OAuth2Client::new(installed());
    let p = client.exchange_params("the-code", "http://localhost").unwrap();
    let expected: Vec<(String, String)> = vec![
        ("grant_type".into(), "authorization_code".into()),
        ("code".into(), "the-code".into()),
        ("client_id".into(), "id".into()),
        ("client_secret".into(), "secret".into()),
        ("redirect_uri".into(), "http://localhost".into()),
    ];
    assert_eq!(p, expected);
    let r = client.refresh_params("rt").unwrap();
    assert_eq!(r[0], ("grant_type".to_string(), "refresh_token".to_string()));
    assert_eq!(r[1], ("refresh_token".to_string(), "rt".to_string()));
    assert_eq!(r.len(), 4);
    let none = OAuth2Client::new(ClientCredentials { installed: None, web: None });
    assert!(matches!(none.exchange_params("c", "r"), Err(Error::OAuth2(_))));
    assert!(matches!(none.refresh_params("rt"), Err(Error::OAuth2(_))));
    assert_eq!(
        form_body(&p),
        "grant_type=authorization_code&code=the-code&client_id=id&client_secret=secret&redirect_uri=http%3A%2F%2Flocalhost"
    );
}

#[test]
fn authorization_url_is_encoded() {
    let client = OAuth2Client::new(installed());
    let url = client
        .authorization_url(&[scopes::USERINFO, scopes::GMAIL], "http://localhost")
        .unwrap();
    assert_eq!(
        url,
        "https://accounts.google.com/o/oauth2/v2/auth?client_id=id&redirect_uri=http%3A%2F%2Flocalhost&response_type=code&scope=https%3A%2F%2Fwww.googleapis.com%2Fauth%2Fuserinfo.email+https%3A%2F%2Fwww.googleapis.com%2Fauth%2Fgmail.modify&access_type=offline&prompt=consent"
    );
    let none = OAuth2Client::new(ClientCredentials { installed: None, web: None });
    assert!(matches!(none.authorization_url(&[], "x"), Err(Error::OAuth2(_))));
}

#[test]
fn exchange_builds_stored_token() {
    let resp = TokenResponse {
        access_token: "at".into(),
        refresh_token: Some("rt".into()),
        expires_in: 3600,
        scope: None,
        token_type: "Bearer".into(),
    };
    let rt = OAuth2Client::exchange_refresh_token(&resp).unwrap();
    assert_eq!(rt, "rt");
    let t = OAuth2Client::token_from_exchange(
        resp,
        rt,
        "me@example.com".into(),
        &["s1", "s2"],
        Some("work"),
        1_000,
    );
    assert_eq!(t.expires_at, Some(3_601_000));
    assert_eq!(t.access_token.as_deref(), Some("at"));
    assert_eq!(t.scopes, vec!["s1".to_string(), "s2".to_string()]);
    assert_eq!(t.client_name.as_deref(), Some("work"));
    let missing = TokenResponse {
        access_token: "at".into(),
        refresh_token: None,
        expires_in: 1,
        scope: None,
        token_type: "Bearer".into(),
    };
    assert!(matches!(OAuth2Client::exchange_refresh_token(&missing), Err(Error::OAuth2(_))));
}

#[test]
fn refresh_updates_token() {
    let mut t = token(Some("old"), Some(0));
    assert!(OAuth2Client::needs_refresh(&t, 10));
    let resp = TokenResponse {
        access_token: "new".into(),
        refresh_token: None,
        expires_in: 120,
        scope: None,
        token_type: "Bearer".into(),
    };
    OAuth2Client::apply_refresh(&mut t, resp, 10);
    assert_eq!(t.access_token.as_deref(), Some("new"));
    assert_eq!(t.expires_at, Some(120_010));
    assert_eq!(t.refresh_token, "refresh");
    assert!(!OAuth2Client::needs_refresh(&t, 10));
    assert_eq!(OAuth2Client::current_access_token(&t).unwrap(), "new");
    assert!(matches!(
        OAuth2Client::current_access_token(&token(None, None)),
        Err(Error::OAuth2(_))
    ));
}

fn key() -> ServiceAccountKey {
    ServiceAccountKey {
        key_type: "service_account".into(),
        project_id: "p".into(),
        private_key_id: "k".into(),
        private_key: "pk".into(),
        client_email: "svc@p.iam.gserviceaccount.com".into(),
        client_id: "1".into(),
        auth_uri: "https://auth".into(),
        token_uri: "https://token".into(),
        auth_provider_x509_cert_url: "https://certs".into(),
        client_x509_cert_url: "https://cert".into(),
    }
}

#[test]
fn service_account_email_and_subject() {
    let k = key();
    assert_eq!(k.email(), "svc@p.iam.gserviceaccount.com");
    let auth = ServiceAccountAuth::new(k).with_subject("user@example.com".into());
    let claims = auth.jwt_claims(&["scope"], 10);
    assert_eq!(claims.sub.as_deref(), Some("user@example.com"));
    assert_eq!(claims.aud, "https://token");
}

#[test]
fn keyring_backend_choice() {
    let dir = std::path::PathBuf::from("/tmp/keyring");
    assert!(matches!(
        KeyringBackend::from_config_in(Some("file"), dir.clone()),
        KeyringBackend::File(_)
    ));
    assert!(matches!(KeyringBackend::from_config_in(Some("auto"), dir.clone()), KeyringBackend::Native));
    assert!(matches!(KeyringBackend::from_config_in(Some("keychain"), dir.clone()), KeyringBackend::Native));
    assert!(matches!(KeyringBackend::from_config_in(None, dir), KeyringBackend::Native));
}

#[test]
fn account_index_store_and_remove() {
    let (idx, changed) = add_to_index(vec!["a@x".into()], "b@x");
    assert!(changed);
    assert_eq!(idx, vec!["a@x".to_string(), "b@x".to_string()]);
    let (same, changed) = add_to_index(idx.clone(), "a@x");
    assert!(!changed);
    assert_eq!(same, idx);
    let removed = remove_from_index(vec!["a@x".into(), "b@x".into(), "a@x".into()], "a@x");
    assert_eq!(removed, vec!["b@x".to_string()]);
}

#[test]
fn token_files_round_trip() {
    let name = token_file_name("me@example.com");
    assert_eq!(name, "me@example.com.json");
    assert_eq!(stored_account(&name), Some("me@example.com".to_string()));
    assert_eq!(stored_account("notes.txt"), None);
    assert_eq!(stored_account(".json"), None);
    assert_eq!(stored_account("a.b.json"), Some("a.b".to_string()));
    assert_eq!(stored_account("noext"), None);
}

#[test]
fn missing_client_id_or_secret_messages() {
    let none = OAuth2Client::new(ClientCredentials { installed: None, web: None });
    match none.exchange_params("c", "r") {
        Err(Error::OAuth2(m)) => assert_eq!(m, "missing client_id"),
        other => panic!("unexpected: {other:?}"),
    }
    match none.refresh_params("rt") {
        Err(Error::OAuth2(m)) => assert_eq!(m, "missing client_id"),
        other => panic!("unexpected: {other:?}"),
    }
    match none.authorization_url(&[], "x") {
        Err(Error::OAuth2(m)) => assert_eq!(m, "missing client_id"),
        other => panic!("unexpected: {other:?}"),
    }
    let missing = TokenResponse {
        access_token: "at".into(),
        refresh_token: None,
        expires_in: 1,
        scope: None,
        token_type: "Bearer".into(),
    };
    match OAuth2Client::exchange_refresh_token(&missing) {
        Err(Error::OAuth2(m)) => assert_eq!(m, "no refresh_token in response"),
        other => panic!("unexpected: {other:?}"),
    }
    match OAuth2Client::current_access_token(&token(None, None)) {
        Err(Error::OAuth2(m)) => assert_eq!(m, "no access token after refresh"),
        other => panic!("unexpected: {other:?}"),
    }
}

#[test]
fn refresh_answer_updates_or_keeps_token() {
    let mut t = token(Some("old"), Some(0));
    let resp = TokenResponse {
        access_token: "new".into(),
        refresh_token: Some("rt2".into()),
        expires_in: 120,
        scope: None,
        token_type: "Bearer".into(),
    };
    assert!(OAuth2Client::apply_refresh_answer(&mut t, Ok(resp), 1_000).is_ok());
    assert_eq!(t.access_token.as_deref(), Some("new"));
    assert_eq!(t.expires_at, Some(121_000));
    assert_eq!(t.refresh_token, "rt2");
    assert_eq!(t.email, "test@example.com");
    let before = t.clone();
    match OAuth2Client::apply_refresh_answer(&mut t, Err(Error::AuthRequired("revoked".into())), 5_000) {
        Err(Error::AuthRequired(m)) => assert_eq!(m, "revoked"),
        other => panic!("unexpected: {other:?}"),
    }
    assert_eq!(t.access_token, before.access_token);
    assert_eq!(t.expires_at, before.expires_at);
    assert_eq!(t.refresh_token, before.refresh_token);
}

#[test]
fn keyring_backend_from_config_or_environment() {
    let dir = std::path::PathBuf::from("/tmp/keyring");
    assert!(matches!(KeyringBackend::from_config_or_env(None, Some("file"), dir.clone()), KeyringBackend::File(_)));
    assert!(matches!(KeyringBackend::from_config_or_env(Some("native"), Some("file"), dir.clone()), KeyringBackend::Native));
    assert!(matches!(KeyringBackend::from_config_or_env(Some("file"), None, dir.clone()), KeyringBackend::File(_)));
    assert!(matches!(KeyringBackend::from_config_or_env(None, None, dir), KeyringBackend::Native));
}
