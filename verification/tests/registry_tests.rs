use accounts::account::{Account, AccountId};
use accounts::capability::Capability;
use accounts::config::AccountsConfig;
use accounts::credential::Credential;
use accounts::error::AccountsError;
use accounts::pending::{PendingAuthorization, PendingTable};
use accounts::provider::Provider;
use accounts::storage::CredentialStorage;
use accounts::time::Timestamp;

fn account(id: u128, provider: Provider, username: &str) -> Account {
    Account {
        id: AccountId(id),
        provider,
        display_name: "Name".to_string(),
        username: username.to_string(),
        email: Some(username.to_string()),
        enabled: true,
        created_at: Timestamp { secs: 100, nanos: 0 },
        last_used: Some(Timestamp { secs: 100, nanos: 0 }),
        capabilities: provider.services(),
    }
}

fn credential(token: &str) -> Credential {
    Credential {
        access_token: token.to_string(),
        refresh_token: Some("refresh".to_string()),
        expires_at: None,
        scope: vec!["email".to_string()],
        token_type: "Bearer".to_string(),
    }
}

#[test]
fn added_account_is_found_equal() {
    let mut registry = AccountsConfig::new();
    assert_eq!(registry.len(), 0);
    let a = account(1, Provider::Google, "a@x.com");
    assert!(registry.add_account(a.clone()).is_ok());
    assert_eq!(registry.len(), 1);
    assert!(registry.get_account(&AccountId(1)).unwrap() == a);
    assert!(registry.get_account(&AccountId(2)).is_none());
    assert!(registry.account_exists(&"a@x.com".to_string(), &Provider::Google));
    assert!(!registry.account_exists(&"a@x.com".to_string(), &Provider::Microsoft));
    assert!(!registry.account_exists(&"b@x.com".to_string(), &Provider::Google));
}

#[test]
fn duplicate_identity_is_refused() {
    let mut registry = AccountsConfig::new();
    registry.add_account(account(1, Provider::Google, "a@x.com")).unwrap();
    let again = registry.add_account(account(2, Provider::Google, "a@x.com"));
    assert!(matches!(again, Err(AccountsError::AccountAlreadyExists)));
    assert_eq!(registry.len(), 1);
    assert!(registry.get_account(&AccountId(2)).is_none());
    assert!(registry.add_account(account(2, Provider::Microsoft, "a@x.com")).is_ok());
    assert!(registry.add_account(account(3, Provider::Google, "b@x.com")).is_ok());
    assert_eq!(registry.len(), 3);
    let matching = registry
        .list()
        .iter()
        .filter(|a| a.provider == Provider::Google && a.username == "a@x.com")
        .count();
    assert_eq!(matching, 1);
}

#[test]
fn duplicate_identifier_is_refused() {
    let mut registry = AccountsConfig::new();
    registry.add_account(account(1, Provider::Google, "a@x.com")).unwrap();
    let again = registry.add_account(account(1, Provider::Google, "b@x.com"));
    assert!(matches!(again, Err(AccountsError::AccountAlreadyExists)));
    assert_eq!(registry.len(), 1);
    assert_eq!(registry.get_account(&AccountId(1)).unwrap().username, "a@x.com");
}

#[test]
fn removed_account_is_not_found() {
    let mut registry = AccountsConfig::new();
    registry.add_account(account(1, Provider::Google, "a@x.com")).unwrap();
    registry.add_account(account(2, Provider::Google, "b@x.com")).unwrap();
    registry.add_account(account(3, Provider::Microsoft, "c@x.com")).unwrap();
    let removed = registry.remove_account(&AccountId(2)).unwrap();
    assert_eq!(removed.username, "b@x.com");
    assert!(registry.get_account(&AccountId(2)).is_none());
    assert_eq!(registry.len(), 2);
    let ids: Vec<AccountId> = registry.list().iter().map(|a| a.id).collect();
    assert_eq!(ids, vec![AccountId(1), AccountId(3)]);
    match registry.remove_account(&AccountId(2)) {
        Err(AccountsError::AccountNotFound(id)) => {
            assert_eq!(id, "00000000-0000-0000-0000-000000000002")
        }
        _ => panic!("expected AccountNotFound"),
    }
    assert_eq!(registry.len(), 2);
    assert!(registry.add_account(account(9, Provider::Google, "b@x.com")).is_ok());
}

#[test]
fn enabled_flag_is_set_without_touching_switches() {
    let mut registry = AccountsConfig::new();
    registry.add_account(account(1, Provider::Google, "a@x.com")).unwrap();
    registry.add_account(account(2, Provider::Google, "b@x.com")).unwrap();
    assert!(registry.set_enabled(&AccountId(1), false).is_ok());
    let a = registry.get_account(&AccountId(1)).unwrap();
    assert!(!a.enabled);
    assert_eq!(a.capabilities, Provider::Google.services());
    assert!(registry.get_account(&AccountId(2)).unwrap().enabled);
    assert!(matches!(
        registry.set_enabled(&AccountId(5), false),
        Err(AccountsError::AccountNotFound(_))
    ));
}

#[test]
fn capability_switch_is_set_without_touching_the_enabled_flag() {
    let mut registry = AccountsConfig::new();
    registry.add_account(account(1, Provider::Google, "a@x.com")).unwrap();
    assert!(registry.set_capability(&AccountId(1), Capability::Calendar, true).is_ok());
    assert!(registry.set_capability(&AccountId(1), Capability::Todo, false).is_ok());
    let a = registry.get_account(&AccountId(1)).unwrap();
    assert!(a.enabled);
    assert_eq!(
        a.capabilities.entries(),
        vec![
            (Capability::Email, false),
            (Capability::Calendar, true),
            (Capability::Todo, false)
        ]
    );
    assert!(matches!(
        registry.set_capability(&AccountId(5), Capability::Email, true),
        Err(AccountsError::AccountNotFound(_))
    ));
}

#[test]
fn saved_record_replaces_or_enters() {
    let mut registry = AccountsConfig::new();
    let a = account(1, Provider::Google, "a@x.com");
    assert!(registry.save_account(&a).is_ok());
    assert_eq!(registry.len(), 1);
    let mut changed = a.clone();
    changed.display_name = "Other".to_string();
    changed.enabled = false;
    assert!(registry.save_account(&changed).is_ok());
    assert_eq!(registry.len(), 1);
    assert!(registry.get_account(&AccountId(1)).unwrap() == changed);
    let mut renamed = changed.clone();
    renamed.username = "new@x.com".to_string();
    assert!(registry.save_account(&renamed).is_ok());
    assert_eq!(registry.get_account(&AccountId(1)).unwrap().username, "new@x.com");
    registry.add_account(account(2, Provider::Google, "b@x.com")).unwrap();
    let mut clash = renamed.clone();
    clash.username = "b@x.com".to_string();
    assert!(matches!(
        registry.save_account(&clash),
        Err(AccountsError::AccountAlreadyExists)
    ));
    assert_eq!(registry.get_account(&AccountId(1)).unwrap().username, "new@x.com");
    assert!(matches!(
        registry.save_account(&account(3, Provider::Google, "b@x.com")),
        Err(AccountsError::AccountAlreadyExists)
    ));
    assert_eq!(registry.len(), 2);
}

#[test]
fn pending_entry_is_handed_out_once() {
    let mut table = PendingTable::new();
    assert!(!table.contains("s1"));
    table.insert(PendingAuthorization {
        state_token: "s1".to_string(),
        provider: Provider::Google,
        pkce_verifier: "v1".to_string(),
        created_at: Timestamp { secs: 1, nanos: 0 },
    });
    table.insert(PendingAuthorization {
        state_token: "s2".to_string(),
        provider: Provider::Microsoft,
        pkce_verifier: "v2".to_string(),
        created_at: Timestamp { secs: 2, nanos: 0 },
    });
    assert!(table.contains("s1"));
    assert!(table.remove("wrong").is_none());
    assert!(table.contains("s1"));
    assert!(table.contains("s2"));
    let entry = table.remove("s1").unwrap();
    assert_eq!(entry.provider, Provider::Google);
    assert_eq!(entry.pkce_verifier, "v1");
    assert!(table.remove("s1").is_none());
    assert!(table.contains("s2"));
}

#[test]
fn pending_entry_under_the_same_token_is_replaced() {
    let mut table = PendingTable::new();
    table.insert(PendingAuthorization {
        state_token: "s1".to_string(),
        provider: Provider::Google,
        pkce_verifier: "v1".to_string(),
        created_at: Timestamp { secs: 1, nanos: 0 },
    });
    table.insert(PendingAuthorization {
        state_token: "s1".to_string(),
        provider: Provider::Microsoft,
        pkce_verifier: "v2".to_string(),
        created_at: Timestamp { secs: 2, nanos: 0 },
    });
    let entry = table.remove("s1").unwrap();
    assert_eq!(entry.provider, Provider::Microsoft);
    assert_eq!(entry.pkce_verifier, "v2");
    assert!(table.remove("s1").is_none());
}

#[test]
fn credential_store_sets_gets_and_deletes() {
    let mut store = CredentialStorage::new();
    let id = AccountId(1);
    assert!(!store.contains(&id));
    match store.get_account_credentials(&id) {
        Err(AccountsError::StorageError(message)) => assert_eq!(
            message,
            "Credentials not found for account 00000000-0000-0000-0000-000000000001"
        ),
        _ => panic!("expected StorageError"),
    }
    store.set_account_credentials(&id, &credential("tok1"));
    store.set_account_credentials(&AccountId(2), &credential("tok2"));
    assert!(store.get_account_credentials(&id).unwrap() == credential("tok1"));
    store.set_account_credentials(&id, &credential("tok3"));
    assert!(store.get_account_credentials(&id).unwrap() == credential("tok3"));
    assert!(store.get_account_credentials(&AccountId(2)).unwrap() == credential("tok2"));
    store.update_account_credentials(&AccountId(2), &credential("tok4"));
    assert!(store.get_account_credentials(&AccountId(2)).unwrap() == credential("tok4"));
    assert!(store.delete_account_credentials(&id));
    assert!(!store.contains(&id));
    assert!(!store.delete_account_credentials(&id));
    assert!(store.contains(&AccountId(2)));
}

#[test]
fn enabled_accounts_are_listed_by_capability() {
    let mut registry = AccountsConfig::new();
    registry.add_account(account(1, Provider::Google, "a@x.com")).unwrap();
    registry.add_account(account(2, Provider::Google, "b@x.com")).unwrap();
    registry.add_account(account(3, Provider::Microsoft, "c@x.com")).unwrap();
    registry.add_account(account(4, Provider::Microsoft, "d@x.com")).unwrap();
    assert!(registry.list_enabled(Capability::Calendar).is_empty());
    registry.set_capability(&AccountId(1), Capability::Calendar, true).unwrap();
    registry.set_capability(&AccountId(3), Capability::Calendar, true).unwrap();
    registry.set_capability(&AccountId(4), Capability::Calendar, true).unwrap();
    registry.set_capability(&AccountId(2), Capability::Email, true).unwrap();
    registry.set_enabled(&AccountId(3), false).unwrap();
    let ids: Vec<AccountId> =
        registry.list_enabled(Capability::Calendar).iter().map(|a| a.id).collect();
    assert_eq!(ids, vec![AccountId(1), AccountId(4)]);
    let ids: Vec<AccountId> =
        registry.list_enabled(Capability::Email).iter().map(|a| a.id).collect();
    assert_eq!(ids, vec![AccountId(2)]);
    assert!(registry.list_enabled(Capability::Todo).is_empty());
}

#[test]
fn registry_is_loaded_from_a_list_without_clashes() {
    let loaded = AccountsConfig::from_accounts(vec![
        account(1, Provider::Google, "a@x.com"),
        account(2, Provider::Microsoft, "a@x.com"),
        account(3, Provider::Google, "b@x.com"),
    ])
    .unwrap();
    assert_eq!(loaded.len(), 3);
    assert_eq!(loaded.list()[2].id, AccountId(3));
    assert!(AccountsConfig::from_accounts(Vec::new()).unwrap().list().is_empty());
    assert!(matches!(
        AccountsConfig::from_accounts(vec![
            account(1, Provider::Google, "a@x.com"),
            account(2, Provider::Google, "a@x.com"),
        ]),
        Err(AccountsError::AccountAlreadyExists)
    ));
    assert!(matches!(
        AccountsConfig::from_accounts(vec![
            account(1, Provider::Google, "a@x.com"),
            account(2, Provider::Google, "b@x.com"),
            account(1, Provider::Microsoft, "c@x.com"),
        ]),
        Err(AccountsError::AccountAlreadyExists)
    ));
}

#[test]
fn abandoned_sign_ins_are_dropped_by_age() {
    let mut table = PendingTable::new();
    for (token, secs) in [("s1", 10), ("s2", 20), ("s3", 30), ("s4", 20)] {
        table.insert(PendingAuthorization {
            state_token: token.to_string(),
            provider: Provider::Google,
            pkce_verifier: format!("v-{}", token),
            created_at: Timestamp { secs, nanos: 0 },
        });
    }
    table.evict_before(&Timestamp { secs: 20, nanos: 0 });
    assert!(!table.contains("s1"));
    assert!(table.contains("s2"));
    assert!(table.contains("s3"));
    assert!(table.contains("s4"));
    assert_eq!(table.remove("s4").unwrap().pkce_verifier, "v-s4");
    table.evict_before(&Timestamp { secs: 20, nanos: 1 });
    assert!(!table.contains("s2"));
    assert!(table.contains("s3"));
    table.evict_before(&Timestamp { secs: 31, nanos: 0 });
    assert!(!table.contains("s3"));
    table.evict_before(&Timestamp { secs: 0, nanos: 0 });
}
