use accounts::account::{AccountId, UserInfo};
use accounts::auth::{check_config, AuthManager};
use accounts::config::AccountsConfig;
use accounts::credential::{Credential, TokenGrant};
use accounts::error::AccountsError;
use accounts::provider::{Provider, ProviderConfig, ProviderRegistry};
use accounts::time::Timestamp;

fn config(client_id: &str) -> ProviderConfig {
    ProviderConfig {
        client_id: client_id.to_string(),
        client_secret: "SECRET-REDACTED".to_string(),
        auth_url: "https://accounts.example.com/o/oauth2/v2/auth".to_string(),
        token_url: "https://accounts.example.com/token".to_string(),
        redirect_uri: "http://127.0.0.1:8080/callback".to_string(),
        scopes: vec!["email".to_string(), "profile".to_string()],
    }
}

fn engine() -> AuthManager {
    let mut configs = ProviderRegistry::new();
    configs.insert(Provider::Google, config("google-client"));
    configs.insert(Provider::Microsoft, config("microsoft-client"));
    AuthManager::new(configs)
}

fn query_value(url: &str, key: &str) -> Option<String> {
    let parsed = url::Url::parse(url).unwrap();
    let found = parsed.query_pairs().find(|(k, _)| k == key).map(|(_, v)| v.into_owned());
    found
}

fn grant(token: &str, refresh: Option<&str>, expires_in: Option<u64>) -> TokenGrant {
    TokenGrant {
        access_token: token.to_string(),
        refresh_token: refresh.map(|s| s.to_string()),
        expires_in,
    }
}

fn ada() -> UserInfo {
    UserInfo {
        display_name: "Ada".to_string(),
        username: "a@x.com".to_string(),
        email: Some("a@x.com".to_string()),
    }
}

const VERIFIER: &str = "0123456789abcdefghijklmnopqrstuvwxyzABCDEFG";

#[test]
fn start_builds_the_authorization_address() {
    let mut auth = engine();
    let url = auth.start_auth_flow(Provider::Google).unwrap();
    assert!(url.starts_with("https://accounts.example.com/o/oauth2/v2/auth?"));
    assert_eq!(query_value(&url, "response_type").unwrap(), "code");
    assert_eq!(query_value(&url, "client_id").unwrap(), "google-client");
    assert_eq!(query_value(&url, "redirect_uri").unwrap(), "http://127.0.0.1:8080/callback");
    assert_eq!(query_value(&url, "scope").unwrap(), "email profile");
    assert_eq!(query_value(&url, "code_challenge_method").unwrap(), "S256");
    assert_eq!(query_value(&url, "access_type").unwrap(), "offline");
    assert_eq!(query_value(&url, "code_challenge").unwrap().len(), 43);
    let state = query_value(&url, "state").unwrap();
    assert_eq!(state.len(), 22);
    assert!(auth.pending.contains(&state));
}

#[test]
fn start_for_microsoft_adds_no_extra_parameter() {
    let mut auth = engine();
    let url = auth.start_auth_flow(Provider::Microsoft).unwrap();
    assert_eq!(query_value(&url, "client_id").unwrap(), "microsoft-client");
    assert!(query_value(&url, "access_type").is_none());
}

#[test]
fn start_with_given_values_is_repeatable() {
    let mut auth = engine();
    let now = Timestamp { secs: 5, nanos: 0 };
    let first = auth
        .start_auth_flow_with(Provider::Google, "state-1".to_string(), VERIFIER.to_string(), now)
        .unwrap();
    let second = auth
        .start_auth_flow_with(Provider::Google, "state-1".to_string(), VERIFIER.to_string(), now)
        .unwrap();
    assert_eq!(first, second);
    assert_eq!(query_value(&first, "state").unwrap(), "state-1");
    let challenge = oauth2::PkceCodeChallenge::from_code_verifier_sha256(
        &oauth2::PkceCodeVerifier::new(VERIFIER.to_string()),
    );
    assert_eq!(query_value(&first, "code_challenge").unwrap(), challenge.as_str());
    assert_ne!(query_value(&first, "code_challenge").unwrap(), VERIFIER);
    let other = auth
        .start_auth_flow_with(Provider::Google, "state-2".to_string(), VERIFIER.to_string(), now)
        .unwrap();
    assert_ne!(first, other);
}

#[test]
fn start_fails_without_settings() {
    let mut auth = AuthManager::new(ProviderRegistry::new());
    assert!(matches!(
        auth.start_auth_flow(Provider::Google),
        Err(AccountsError::InvalidProviderConfig)
    ));
    let mut configs = ProviderRegistry::new();
    configs.insert(Provider::Google, config("c"));
    let mut auth = AuthManager::new(configs);
    assert!(auth.start_auth_flow(Provider::Google).is_ok());
    assert!(matches!(
        auth.start_auth_flow(Provider::Microsoft),
        Err(AccountsError::InvalidProviderConfig)
    ));
}

#[test]
fn start_fails_on_an_address_that_does_not_parse() {
    let mut bad = config("c");
    bad.token_url = "not an address".to_string();
    assert!(matches!(check_config(&bad), Err(AccountsError::UrlParse(_))));
    assert!(check_config(&config("c")).is_ok());
    let mut configs = ProviderRegistry::new();
    configs.insert(Provider::Google, bad);
    let mut auth = AuthManager::new(configs);
    assert!(matches!(auth.start_auth_flow(Provider::Google), Err(AccountsError::UrlParse(_))));
    let mut worse = config("c");
    worse.auth_url = "".to_string();
    auth.add_provider_config(Provider::Google, worse);
    assert!(matches!(
        auth.start_auth_flow_with(
            Provider::Google,
            "s".to_string(),
            VERIFIER.to_string(),
            Timestamp { secs: 0, nanos: 0 }
        ),
        Err(AccountsError::UrlParse(_))
    ));
    assert!(!auth.pending.contains("s"));
}

#[test]
fn start_refuses_a_verifier_of_the_wrong_length() {
    let mut auth = engine();
    let now = Timestamp { secs: 0, nanos: 0 };
    let short = "a".repeat(42);
    let long = "a".repeat(129);
    assert!(matches!(
        auth.start_auth_flow_with(Provider::Google, "s".to_string(), short, now),
        Err(AccountsError::InvalidArguments(_))
    ));
    assert!(matches!(
        auth.start_auth_flow_with(Provider::Google, "s".to_string(), long, now),
        Err(AccountsError::InvalidArguments(_))
    ));
    assert!(!auth.pending.contains("s"));
    assert!(auth
        .start_auth_flow_with(Provider::Google, "s".to_string(), "a".repeat(43), now)
        .is_ok());
    assert!(auth
        .start_auth_flow_with(Provider::Google, "t".to_string(), "a".repeat(128), now)
        .is_ok());
    let wide = "\u{e9}".repeat(22);
    assert_eq!(wide.len(), 44);
    assert!(auth.start_auth_flow_with(Provider::Google, "u".to_string(), wide, now).is_ok());
}

#[test]
fn wrong_state_token_fails_and_keeps_the_pending_entry() {
    for provider in Provider::list() {
        let mut auth = engine();
        let url = auth.start_auth_flow(provider).unwrap();
        let state = query_value(&url, "state").unwrap();
        let wrong = format!("{}x", state);
        assert!(matches!(
            auth.redeem_state(&wrong, "code".to_string()),
            Err(AccountsError::InvalidState)
        ));
        assert!(auth.pending.contains(&state));
        let exchange = auth.redeem_state(&state, "code".to_string()).unwrap();
        assert_eq!(exchange.provider, provider);
    }
}

#[test]
fn state_token_is_redeemed_once() {
    let mut auth = engine();
    let url = auth.start_auth_flow(Provider::Google).unwrap();
    let state = query_value(&url, "state").unwrap();
    let exchange = auth.redeem_state(&state, "test-code".to_string()).unwrap();
    assert_eq!(exchange.authorization_code, "test-code");
    assert_eq!(exchange.config.client_id, "google-client");
    assert_eq!(exchange.pkce_verifier.len(), 43);
    let challenge = oauth2::PkceCodeChallenge::from_code_verifier_sha256(
        &oauth2::PkceCodeVerifier::new(exchange.pkce_verifier.clone()),
    );
    assert_eq!(query_value(&url, "code_challenge").unwrap(), challenge.as_str());
    assert!(matches!(
        auth.redeem_state(&state, "test-code".to_string()),
        Err(AccountsError::InvalidState)
    ));
    assert!(!auth.pending.contains(&state));
}

#[test]
fn state_token_is_consumed_even_if_the_settings_are_gone() {
    let mut configs = ProviderRegistry::new();
    configs.insert(Provider::Google, config("c"));
    let mut auth = AuthManager::new(configs);
    auth.start_auth_flow_with(
        Provider::Google,
        "s".to_string(),
        VERIFIER.to_string(),
        Timestamp { secs: 0, nanos: 0 },
    )
    .unwrap();
    let mut bad = config("c");
    bad.redirect_uri = "::".to_string();
    auth.add_provider_config(Provider::Google, bad);
    assert!(matches!(
        auth.redeem_state("s", "code".to_string()),
        Err(AccountsError::UrlParse(_))
    ));
    assert!(matches!(
        auth.redeem_state("s", "code".to_string()),
        Err(AccountsError::InvalidState)
    ));
}

#[test]
fn sign_in_scenario_with_a_stub_token_endpoint() {
    let mut auth = engine();
    let registry = AccountsConfig::new();
    let url = auth.start_auth_flow(Provider::Google).unwrap();
    assert!(url.contains("client_id="));
    assert!(url.contains("code_challenge="));
    assert!(url.contains("state="));
    let state = query_value(&url, "state").unwrap();
    let exchange = auth.redeem_state(&state, "test-code".to_string()).unwrap();
    let before = chrono::Utc::now().timestamp();
    let account = auth
        .complete_auth_flow(&registry, exchange.provider, grant("tok1", None, Some(3600)), ada())
        .unwrap();
    let after = chrono::Utc::now().timestamp();
    assert!(account.enabled);
    assert_eq!(account.provider, Provider::Google);
    assert_eq!(account.username, "a@x.com");
    assert_eq!(account.display_name, "Ada");
    assert_eq!(account.email, Some("a@x.com".to_string()));
    assert_eq!(account.capabilities, Provider::Google.services());
    assert_eq!(account.last_used, Some(account.created_at));
    assert!(before <= account.created_at.secs && account.created_at.secs <= after);
    let stored = auth.get_account_credentials(&account.id).unwrap();
    assert_eq!(stored.access_token, "tok1");
    assert_eq!(stored.refresh_token, None);
    assert_eq!(stored.token_type, "Bearer");
    assert_eq!(stored.scope, vec!["email".to_string(), "profile".to_string()]);
    let expires = stored.expires_at.unwrap();
    assert!(before + 3600 <= expires.secs && expires.secs <= after + 3600);
}

#[test]
fn completion_with_given_identifier_and_time_is_exact() {
    let mut auth = engine();
    let registry = AccountsConfig::new();
    let now = Timestamp { secs: 1_000, nanos: 9 };
    let account = auth
        .complete_auth_flow_with(
            &registry,
            Provider::Microsoft,
            grant("tok", Some("ref"), Some(60)),
            ada(),
            AccountId(42),
            now,
        )
        .unwrap();
    assert_eq!(account.id, AccountId(42));
    assert_eq!(account.created_at, now);
    assert_eq!(account.last_used, Some(now));
    assert!(account.enabled);
    let stored = auth.get_account_credentials(&AccountId(42)).unwrap();
    let expected = Credential {
        access_token: "tok".to_string(),
        refresh_token: Some("ref".to_string()),
        expires_at: Some(Timestamp { secs: 1_060, nanos: 9 }),
        scope: vec!["email".to_string(), "profile".to_string()],
        token_type: "Bearer".to_string(),
    };
    assert!(stored == expected);
    let forever = auth
        .complete_auth_flow_with(
            &registry,
            Provider::Google,
            grant("tok", None, None),
            ada(),
            AccountId(43),
            now,
        )
        .unwrap();
    assert_eq!(
        auth.get_account_credentials(&forever.id).unwrap().expires_at,
        None
    );
}

#[test]
fn second_sign_in_for_the_same_identity_is_refused() {
    let mut auth = engine();
    let mut registry = AccountsConfig::new();
    let first = auth
        .complete_auth_flow(&registry, Provider::Google, grant("tok1", None, Some(3600)), ada())
        .unwrap();
    registry.add_account(first.clone()).unwrap();
    let second =
        auth.complete_auth_flow(&registry, Provider::Google, grant("tok2", None, Some(3600)), ada());
    assert!(matches!(second, Err(AccountsError::AccountAlreadyExists)));
    assert_eq!(registry.len(), 1);
    let matching = registry
        .list()
        .iter()
        .filter(|a| a.provider == Provider::Google && a.username == "a@x.com")
        .count();
    assert_eq!(matching, 1);
    assert_eq!(auth.get_account_credentials(&first.id).unwrap().access_token, "tok1");
    let other_provider =
        auth.complete_auth_flow(&registry, Provider::Microsoft, grant("tok3", None, None), ada());
    assert!(other_provider.is_ok());
}

#[test]
fn completion_failures_leave_the_store_untouched() {
    let mut auth = engine();
    let mut registry = AccountsConfig::new();
    let now = Timestamp { secs: 10, nanos: 0 };
    let out_of_range = auth.complete_auth_flow_with(
        &registry,
        Provider::Google,
        grant("tok", None, Some(u64::MAX)),
        ada(),
        AccountId(1),
        now,
    );
    match out_of_range {
        Err(AccountsError::AuthenticationFailed { reason }) => {
            assert_eq!(reason, "Token lifetime is out of range")
        }
        _ => panic!("expected AuthenticationFailed"),
    }
    assert!(!auth.storage.contains(&AccountId(1)));
    let first = auth
        .complete_auth_flow_with(
            &registry,
            Provider::Google,
            grant("tok1", None, None),
            ada(),
            AccountId(1),
            now,
        )
        .unwrap();
    registry.add_account(first).unwrap();
    let mut bob = ada();
    bob.username = "b@x.com".to_string();
    let same_id = auth.complete_auth_flow_with(
        &registry,
        Provider::Google,
        grant("tok2", None, None),
        bob,
        AccountId(1),
        now,
    );
    assert!(matches!(same_id, Err(AccountsError::AccountAlreadyExists)));
    assert_eq!(auth.get_account_credentials(&AccountId(1)).unwrap().access_token, "tok1");
    let mut none = AuthManager::new(ProviderRegistry::new());
    assert!(matches!(
        none.complete_auth_flow(&registry, Provider::Google, grant("t", None, None), ada()),
        Err(AccountsError::InvalidProviderConfig)
    ));
}

#[test]
fn fresh_credential_needs_no_refresh_and_stays_unchanged() {
    let mut auth = engine();
    let registry = AccountsConfig::new();
    let now = Timestamp { secs: 1_000, nanos: 0 };
    let account = auth
        .complete_auth_flow_with(
            &registry,
            Provider::Google,
            grant("tok1", Some("ref"), Some(3600)),
            ada(),
            AccountId(1),
            now,
        )
        .unwrap();
    let before = auth.get_account_credentials(&account.id).unwrap();
    let first = auth.ensure_credentials_at(&account.id, account.provider, &now).unwrap();
    assert!(first.is_none());
    let later = Timestamp { secs: 4_599, nanos: 999_999_999 };
    let second = auth.ensure_credentials_at(&account.id, account.provider, &later).unwrap();
    assert!(second.is_none());
    assert!(auth.get_account_credentials(&account.id).unwrap() == before);
    assert!(auth.ensure_credentials(&account.id, account.provider).is_err() == false);
}

#[test]
fn expired_credential_is_refreshed() {
    let mut auth = engine();
    let registry = AccountsConfig::new();
    let created = Timestamp { secs: 1_000, nanos: 0 };
    let account = auth
        .complete_auth_flow_with(
            &registry,
            Provider::Google,
            grant("tok1", Some("ref1"), Some(3600)),
            ada(),
            AccountId(1),
            created,
        )
        .unwrap();
    let now = Timestamp { secs: 4_600, nanos: 0 };
    let request = auth
        .ensure_credentials_at(&account.id, account.provider, &now)
        .unwrap()
        .unwrap();
    assert_eq!(request.account_id, account.id);
    assert_eq!(request.refresh_token, "ref1");
    assert_eq!(request.config.client_id, "google-client");
    auth.refresh_token_at(&account.id, &grant("tok2", None, Some(3600)), &now).unwrap();
    let stored = auth.get_account_credentials(&account.id).unwrap();
    assert_eq!(stored.access_token, "tok2");
    assert_eq!(stored.refresh_token, Some("ref1".to_string()));
    assert_eq!(stored.expires_at, Some(Timestamp { secs: 8_200, nanos: 0 }));
    assert_eq!(stored.token_type, "Bearer");
    assert_eq!(stored.scope, vec!["email".to_string(), "profile".to_string()]);
    assert!(!stored.is_expired(&now));
    assert!(auth.ensure_credentials_at(&account.id, account.provider, &now).unwrap().is_none());
    auth.refresh_token_at(&account.id, &grant("tok3", Some("ref2"), None), &now).unwrap();
    let rotated = auth.get_account_credentials(&account.id).unwrap();
    assert_eq!(rotated.access_token, "tok3");
    assert_eq!(rotated.refresh_token, Some("ref2".to_string()));
    assert_eq!(rotated.expires_at, None);
}

#[test]
fn expired_credential_in_the_past_is_refreshed_to_a_future_time() {
    let mut auth = engine();
    let registry = AccountsConfig::new();
    let account = auth
        .complete_auth_flow_with(
            &registry,
            Provider::Google,
            grant("tok1", Some("ref1"), Some(1)),
            ada(),
            AccountId(1),
            Timestamp { secs: 0, nanos: 0 },
        )
        .unwrap();
    assert!(auth.ensure_credentials(&account.id, account.provider).unwrap().is_some());
    let before = chrono::Utc::now().timestamp();
    auth.refresh_token(&account.id, &grant("tok2", None, Some(3600))).unwrap();
    let stored = auth.get_account_credentials(&account.id).unwrap();
    assert!(stored.expires_at.unwrap().secs >= before + 3600);
    assert!(auth.ensure_credentials(&account.id, account.provider).unwrap().is_none());
}

#[test]
fn expired_credential_without_refresh_token_fails_and_is_untouched() {
    let mut auth = engine();
    let registry = AccountsConfig::new();
    let created = Timestamp { secs: 1_000, nanos: 0 };
    let account = auth
        .complete_auth_flow_with(
            &registry,
            Provider::Google,
            grant("tok1", None, Some(10)),
            ada(),
            AccountId(1),
            created,
        )
        .unwrap();
    let before = auth.get_account_credentials(&account.id).unwrap();
    let now = Timestamp { secs: 1_010, nanos: 0 };
    match auth.ensure_credentials_at(&account.id, account.provider, &now) {
        Err(AccountsError::TokenExpired { account_id }) => {
            assert_eq!(account_id, "00000000-0000-0000-0000-000000000001")
        }
        _ => panic!("expected TokenExpired"),
    }
    assert!(matches!(
        auth.ensure_credentials(&account.id, account.provider),
        Err(AccountsError::TokenExpired { .. })
    ));
    assert!(auth.get_account_credentials(&account.id).unwrap() == before);
}

#[test]
fn refresh_needs_a_stored_credential_and_a_lifetime_in_range() {
    let mut auth = engine();
    let registry = AccountsConfig::new();
    let now = Timestamp { secs: 1_000, nanos: 0 };
    assert!(matches!(
        auth.ensure_credentials_at(&AccountId(9), Provider::Google, &now),
        Err(AccountsError::StorageError(_))
    ));
    assert!(matches!(
        auth.refresh_token_at(&AccountId(9), &grant("t", None, None), &now),
        Err(AccountsError::StorageError(_))
    ));
    assert!(matches!(
        auth.refresh_token(&AccountId(9), &grant("t", None, None)),
        Err(AccountsError::StorageError(_))
    ));
    let account = auth
        .complete_auth_flow_with(
            &registry,
            Provider::Google,
            grant("tok1", Some("ref1"), Some(1)),
            ada(),
            AccountId(1),
            now,
        )
        .unwrap();
    let before = auth.get_account_credentials(&account.id).unwrap();
    match auth.refresh_token_at(&account.id, &grant("t", None, Some(u64::MAX)), &now) {
        Err(AccountsError::TokenRefreshFailed(id)) => {
            assert_eq!(id, "00000000-0000-0000-0000-000000000001")
        }
        _ => panic!("expected TokenRefreshFailed"),
    }
    assert!(auth.get_account_credentials(&account.id).unwrap() == before);
    let mut without = AuthManager::new(ProviderRegistry::new());
    without.storage.set_account_credentials(&account.id, &before);
    let later = Timestamp { secs: 2_000, nanos: 0 };
    assert!(matches!(
        without.ensure_credentials_at(&account.id, Provider::Google, &later),
        Err(AccountsError::InvalidProviderConfig)
    ));
    assert!(without.delete_credentials(&account.id));
    assert!(!without.delete_credentials(&account.id));
}

#[test]
fn abandoned_sign_ins_expire() {
    let mut auth = engine();
    auth.start_auth_flow_with(
        Provider::Google,
        "old".to_string(),
        VERIFIER.to_string(),
        Timestamp { secs: 100, nanos: 0 },
    )
    .unwrap();
    auth.start_auth_flow_with(
        Provider::Google,
        "new".to_string(),
        VERIFIER.to_string(),
        Timestamp { secs: 700, nanos: 0 },
    )
    .unwrap();
    auth.expire_pending(&Timestamp { secs: 400, nanos: 0 });
    assert!(matches!(
        auth.redeem_state("old", "code".to_string()),
        Err(AccountsError::InvalidState)
    ));
    assert!(auth.redeem_state("new", "code".to_string()).is_ok());
}
