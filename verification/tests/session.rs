use limit_test::session::{
    bootstrap, scopes, select_path, ConfigError, SessionCredentials, SessionPath, Setting,
};
use limit_test::token::LoadError;

fn some(text: &str) -> Option<String> {
    Some(text.to_string())
}

fn credentials(redirect_uri: &str) -> SessionCredentials {
    SessionCredentials::from_settings(some("id"), some("secret"), some(redirect_uri))
        .expect("all three settings are given")
}

#[test]
fn setting_variables() {
    assert_eq!(Setting::ClientId.variable(), "CLIENT_ID");
    assert_eq!(Setting::ClientSecret.variable(), "CLIENT_SECRET");
    assert_eq!(Setting::RedirectUri.variable(), "REDIRECT_URI");
    assert_eq!(Setting::PlaylistId.variable(), "PLAYLIST_ID");
}

#[test]
fn requested_scopes_in_order() {
    assert_eq!(
        scopes(),
        vec![
            "playlist-modify-public".to_string(),
            "playlist-modify-private".to_string(),
            "playlist-read-private".to_string(),
        ]
    );
}

#[test]
fn credentials_from_all_settings() {
    let outcome = SessionCredentials::from_settings(
        some("id"),
        some("secret"),
        some("https://app.example/cb"),
    );
    assert_eq!(
        outcome,
        Ok(SessionCredentials {
            client_id: "id".to_string(),
            client_secret: "secret".to_string(),
            redirect_uri: "https://app.example/cb".to_string(),
            scopes: scopes(),
        })
    );
}

#[test]
fn empty_settings_are_values() {
    let outcome = SessionCredentials::from_settings(some(""), some(""), some(""));
    assert_eq!(
        outcome,
        Ok(SessionCredentials {
            client_id: String::new(),
            client_secret: String::new(),
            redirect_uri: String::new(),
            scopes: scopes(),
        })
    );
}

#[test]
fn first_missing_setting_is_reported() {
    let missing = |setting| Err(ConfigError { missing: setting });
    assert_eq!(SessionCredentials::from_settings(None, None, None), missing(Setting::ClientId));
    assert_eq!(
        SessionCredentials::from_settings(None, some("s"), some("u")),
        missing(Setting::ClientId)
    );
    assert_eq!(
        SessionCredentials::from_settings(some("i"), None, None),
        missing(Setting::ClientSecret)
    );
    assert_eq!(
        SessionCredentials::from_settings(some("i"), None, some("u")),
        missing(Setting::ClientSecret)
    );
    assert_eq!(
        SessionCredentials::from_settings(some("i"), some("s"), None),
        missing(Setting::RedirectUri)
    );
}

#[test]
fn config_error_message_names_the_variable() {
    assert_eq!(
        ConfigError { missing: Setting::ClientSecret }.message(),
        "environment variable not found: CLIENT_SECRET"
    );
    assert_eq!(
        ConfigError { missing: Setting::PlaylistId }.message(),
        "environment variable not found: PLAYLIST_ID"
    );
}

#[test]
fn valid_redirect_uri_has_no_fault() {
    assert_eq!(credentials("https://app.example/cb").check_redirect_uri(), None);
    assert_eq!(credentials("http://127.0.0.1:8888/callback").check_redirect_uri(), None);
    assert_eq!(credentials("myapp://callback").check_redirect_uri(), None);
}

#[test]
fn invalid_redirect_uri_has_the_parser_reason() {
    assert_eq!(
        credentials("app.example/cb").check_redirect_uri(),
        Some("relative URL without a base".to_string())
    );
    assert_eq!(
        credentials("").check_redirect_uri(),
        Some("relative URL without a base".to_string())
    );
    assert_eq!(credentials("https://").check_redirect_uri(), Some("empty host".to_string()));
}

#[test]
fn absent_token_file_selects_new_session() {
    assert_eq!(bootstrap(None), SessionPath::NewSession);
}

#[test]
fn invalid_json_selects_new_session() {
    assert_eq!(bootstrap(Some(b"{ not json".as_slice())), SessionPath::NewSession);
    assert_eq!(bootstrap(Some(b"".as_slice())), SessionPath::NewSession);
    assert_eq!(bootstrap(Some(b"42".as_slice())), SessionPath::NewSession);
}

#[test]
fn stored_secret_selects_resume() {
    assert_eq!(
        bootstrap(Some(b"\"AQDx\"".as_slice())),
        SessionPath::Resume { refresh_secret: "AQDx".to_string() }
    );
}

#[test]
fn stored_empty_secret_selects_resume() {
    assert_eq!(
        bootstrap(Some(b"\"\"".as_slice())),
        SessionPath::Resume { refresh_secret: String::new() }
    );
}

#[test]
fn any_load_failure_selects_new_session() {
    assert_eq!(select_path(Err(LoadError::Unavailable)), SessionPath::NewSession);
    assert_eq!(select_path(Err(LoadError::Malformed)), SessionPath::NewSession);
}

#[test]
fn loaded_secret_selects_resume() {
    assert_eq!(
        select_path(Ok("AQDx".to_string())),
        SessionPath::Resume { refresh_secret: "AQDx".to_string() }
    );
}
