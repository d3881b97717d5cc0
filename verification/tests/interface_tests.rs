use accounts::account::{Account, AccountId, UserInfo};
use accounts::callback::{handle_callback, CallbackAction, CallbackQuery, CallbackResponse};
use accounts::capability::Capability;
use accounts::config::AccountsConfig;
use accounts::credential::TokenGrant;
use accounts::dbus::{
    switches_from_list, time_from_text, time_to_text, DbusAccount, DbusSwitch,
};
use accounts::error::AccountsError;
use accounts::identity::{read_user_info, IdentityResponse};
use accounts::interface::{
    report_failure, report_removal, sign_in_notification, AccessTokenStep, AccountsInterface, Notification,
    ServiceAction,
};
use accounts::provider::{Provider, ProviderConfig, ProviderRegistry};
use accounts::services::{
    provider_in_id, AccountService, CalendarService, ContactsService, MailService,
    ServiceFactory, SettingValue, TodoService,
};
use accounts::time::Timestamp;

fn config(client_id: &str) -> ProviderConfig {
    ProviderConfig {
        client_id: client_id.to_string(),
        client_secret: "SECRET-REDACTED".to_string(),
        auth_url: "https://accounts.example.com/auth".to_string(),
        token_url: "https://accounts.example.com/token".to_string(),
        redirect_uri: "http://127.0.0.1:8080/callback".to_string(),
        scopes: vec!["email".to_string()],
    }
}

fn service() -> AccountsInterface {
    let mut configs = ProviderRegistry::new();
    configs.insert(Provider::Google, config("google-client"));
    AccountsInterface::new(configs, AccountsConfig::new())
}

fn grant(token: &str, refresh: Option<&str>, expires_in: Option<u64>) -> TokenGrant {
    TokenGrant {
        access_token: token.to_string(),
        refresh_token: refresh.map(|s| s.to_string()),
        expires_in,
    }
}

fn user(name: &str) -> UserInfo {
    UserInfo {
        display_name: "Ada".to_string(),
        username: name.to_string(),
        email: Some(name.to_string()),
    }
}

fn account(id: u128, provider: Provider, email: Option<&str>) -> Account {
    Account {
        id: AccountId(id),
        provider,
        display_name: "Ada".to_string(),
        username: "ada".to_string(),
        email: email.map(|s| s.to_string()),
        enabled: true,
        created_at: Timestamp { secs: 1_431_648_000, nanos: 0 },
        last_used: None,
        capabilities: provider.services(),
    }
}

fn text_of(value: Option<&SettingValue>) -> String {
    match value {
        Some(SettingValue::Text(s)) => s.clone(),
        _ => panic!("expected a text setting"),
    }
}

fn flag_of(value: Option<&SettingValue>) -> bool {
    match value {
        Some(SettingValue::Flag(b)) => *b,
        _ => panic!("expected a flag setting"),
    }
}

fn token_of(step: Result<AccessTokenStep, AccountsError>) -> String {
    match step {
        Ok(AccessTokenStep::Token(t)) => t,
        _ => panic!("expected an access token"),
    }
}

fn state_of(url: &str) -> String {
    let parsed = url::Url::parse(url).unwrap();
    let found = parsed.query_pairs().find(|(k, _)| k == "state").map(|(_, v)| v.into_owned());
    found.unwrap()
}

const ID_ONE: &str = "00000000-0000-0000-0000-000000000001";

#[test]
fn sign_in_through_the_service_adds_the_account() {
    let mut s = service();
    let url = s.start_authentication("google").unwrap();
    let state = state_of(&url);
    let exchange = s.begin_authentication(&state, "test-code").unwrap();
    assert_eq!(exchange.authorization_code, "test-code");
    let id = s
        .complete_authentication(exchange.provider, grant("tok1", None, Some(3600)), user("a@x.com"))
        .unwrap();
    let listed = s.list_accounts();
    assert_eq!(listed.len(), 1);
    assert_eq!(listed[0].id, id);
    assert_eq!(listed[0].provider, "Google");
    assert_eq!(listed[0].username, "a@x.com");
    assert!(listed[0].enabled);
    assert_eq!(s.get_account(&id).unwrap().username, "a@x.com");
    assert_eq!(token_of(s.get_access_token(&id)), "tok1");
    assert_eq!(s.get_refresh_token(&id).unwrap(), "");
    assert!(s.ensure_credentials(&id).unwrap().is_none());
    let outcome: Result<String, AccountsError> = Ok(id.clone());
    assert!(matches!(
        sign_in_notification(&outcome),
        Some(Notification::AccountAdded(ref text)) if *text == id
    ));
}

#[test]
fn start_authentication_reports_unknown_names_and_missing_settings() {
    let mut s = service();
    match s.start_authentication("github") {
        Err(AccountsError::InvalidProvider(name)) => assert_eq!(name, "github"),
        _ => panic!("expected InvalidProvider"),
    }
    match s.start_authentication("Microsoft") {
        Err(AccountsError::AuthenticationFailed { reason }) => {
            assert_eq!(reason, "Invalid provider configuration")
        }
        _ => panic!("expected AuthenticationFailed"),
    }
    assert!(s.start_authentication("GOOGLE").is_ok());
}

#[test]
fn begin_authentication_refuses_unknown_and_used_tokens() {
    let mut s = service();
    let url = s.start_authentication("google").unwrap();
    let state = state_of(&url);
    assert!(matches!(
        s.begin_authentication("other", "code"),
        Err(AccountsError::InvalidState)
    ));
    assert!(s.begin_authentication(&state, "code").is_ok());
    assert!(matches!(
        s.begin_authentication(&state, "code"),
        Err(AccountsError::InvalidState)
    ));
}

#[test]
fn second_sign_in_for_a_linked_identity_is_announced() {
    let mut s = service();
    let now = Timestamp { secs: 10, nanos: 0 };
    let id = s
        .complete_authentication_with(
            Provider::Google,
            grant("tok1", None, None),
            user("a@x.com"),
            AccountId(1),
            now,
        )
        .unwrap();
    assert_eq!(id, ID_ONE);
    let again = s.complete_authentication(Provider::Google, grant("tok2", None, None), user("a@x.com"));
    assert!(matches!(again, Err(AccountsError::AccountAlreadyExists)));
    assert!(matches!(
        sign_in_notification(&again),
        Some(Notification::AccountAlreadyExists)
    ));
    assert_eq!(s.list_accounts().len(), 1);
    assert_eq!(token_of(s.get_access_token(ID_ONE)), "tok1");
    let other = s.complete_authentication(
        Provider::Microsoft,
        grant("tok3", None, None),
        user("a@x.com"),
    );
    match &other {
        Err(AccountsError::AuthenticationFailed { reason }) => {
            assert_eq!(reason, "Invalid provider configuration")
        }
        _ => panic!("expected AuthenticationFailed"),
    }
    assert!(sign_in_notification(&other).is_none());
    assert_eq!(s.list_accounts().len(), 1);
}

#[test]
fn failures_are_reported_by_their_kind() {
    assert!(matches!(
        report_failure(AccountsError::InvalidState),
        AccountsError::InvalidState
    ));
    assert!(matches!(
        report_failure(AccountsError::AccountAlreadyExists),
        AccountsError::AccountAlreadyExists
    ));
    match report_failure(AccountsError::OAuth2("denied".to_string())) {
        AccountsError::AuthenticationFailed { reason } => assert_eq!(reason, "OAuth2 error: denied"),
        _ => panic!("expected AuthenticationFailed"),
    }
}

#[test]
fn removed_account_is_gone_with_its_secret() {
    let mut s = service();
    let now = Timestamp { secs: 10, nanos: 0 };
    s.complete_authentication_with(
        Provider::Google,
        grant("tok1", None, None),
        user("a@x.com"),
        AccountId(1),
        now,
    )
    .unwrap();
    s.complete_authentication_with(
        Provider::Google,
        grant("tok2", None, None),
        user("b@x.com"),
        AccountId(2),
        now,
    )
    .unwrap();
    assert!(s.auth_manager.storage.contains(&AccountId(1)));
    match s.remove_account(ID_ONE) {
        Ok(Notification::AccountRemoved(id)) => assert_eq!(id, ID_ONE),
        _ => panic!("expected AccountRemoved"),
    }
    match s.get_account(ID_ONE) {
        Err(AccountsError::AccountNotFound(id)) => assert_eq!(id, ID_ONE),
        _ => panic!("expected AccountNotFound"),
    }
    assert!(!s.auth_manager.storage.contains(&AccountId(1)));
    assert!(s.auth_manager.storage.contains(&AccountId(2)));
    assert_eq!(s.list_accounts().len(), 1);
    assert!(matches!(s.remove_account(ID_ONE), Err(AccountsError::AccountNotFound(_))));
    assert!(matches!(s.remove_account("nonsense"), Err(AccountsError::InvalidArguments(_))));
    assert!(matches!(s.get_access_token(ID_ONE), Err(AccountsError::AccountNotFound(_))));
}

#[test]
fn enabled_flag_and_switches_are_set_through_the_service() {
    let mut s = service();
    let now = Timestamp { secs: 10, nanos: 0 };
    s.complete_authentication_with(
        Provider::Google,
        grant("tok1", Some("ref1"), None),
        user("a@x.com"),
        AccountId(1),
        now,
    )
    .unwrap();
    match s.set_account_enabled(ID_ONE, false) {
        Ok(Notification::AccountChanged(id)) => assert_eq!(id, ID_ONE),
        _ => panic!("expected AccountChanged"),
    }
    assert!(!s.get_account(ID_ONE).unwrap().enabled);
    assert!(matches!(
        s.set_account_enabled("00000000-0000-0000-0000-000000000009", true),
        Err(AccountsError::AccountNotFound(_))
    ));
    assert!(matches!(
        s.set_account_enabled("x", true),
        Err(AccountsError::InvalidArguments(_))
    ));
    match s.set_service_enabled(ID_ONE, "Calendar", true) {
        Ok((Notification::AccountChanged(id), ServiceAction::Add(AccountService::Calendar(c)))) => {
            assert_eq!(id, ID_ONE);
            assert_eq!(c.account.id, AccountId(1));
            assert!(c.account.capabilities.is_enabled(Capability::Calendar));
        }
        _ => panic!("expected the calendar service to be added"),
    }
    assert!(matches!(
        s.set_service_enabled(ID_ONE, "calendar", false),
        Ok((_, ServiceAction::Remove(AccountService::Calendar(_))))
    ));
    assert!(matches!(
        s.set_service_enabled(ID_ONE, "email", true),
        Ok((_, ServiceAction::Nothing))
    ));
    match s.set_service_enabled(ID_ONE, "files", true) {
        Err(AccountsError::InvalidService(name)) => assert_eq!(name, "files"),
        _ => panic!("expected InvalidService"),
    }
    assert!(matches!(
        s.set_service_enabled("00000000-0000-0000-0000-000000000009", "files", true),
        Err(AccountsError::AccountNotFound(_))
    ));
    let record = s.get_account(ID_ONE).unwrap();
    assert!(!record.enabled);
    let switches: Vec<(String, bool)> =
        record.services.iter().map(|x| (x.name.clone(), x.enabled)).collect();
    assert_eq!(
        switches,
        vec![("Calendar".to_string(), false), ("Email".to_string(), true)]
    );
    assert_eq!(s.get_refresh_token(ID_ONE).unwrap(), "ref1");
}

#[test]
fn redirect_with_provider_error_never_completes() {
    let action = handle_callback(CallbackQuery {
        code: Some("code".to_string()),
        state: Some("state".to_string()),
        error: Some("access_denied".to_string()),
        error_description: None,
    });
    match &action {
        CallbackAction::ReportError { error, description } => {
            assert_eq!(error, "access_denied");
            assert_eq!(description, "No description");
        }
        _ => panic!("expected ReportError"),
    }
    let response = CallbackResponse::immediate(&action).unwrap();
    assert_eq!(response.status, 400);
    assert!(response.body.contains("<strong>Error:</strong> access_denied</p>"));
    assert!(response.body.contains("<strong>Description:</strong> No description</p>"));
    let described = handle_callback(CallbackQuery {
        code: None,
        state: None,
        error: Some("e".to_string()),
        error_description: Some("d".to_string()),
    });
    assert!(matches!(
        described,
        CallbackAction::ReportError { ref description, .. } if description == "d"
    ));
}

#[test]
fn redirect_forwards_state_and_code_unmodified() {
    let action = handle_callback(CallbackQuery {
        code: Some(" c o d e ".to_string()),
        state: Some("St4te".to_string()),
        error: None,
        error_description: Some("ignored".to_string()),
    });
    match &action {
        CallbackAction::Complete { state, code } => {
            assert_eq!(state, "St4te");
            assert_eq!(code, " c o d e ");
        }
        _ => panic!("expected Complete"),
    }
    assert!(CallbackResponse::immediate(&action).is_none());
}

#[test]
fn redirect_without_code_or_state_is_invalid() {
    for (code, state) in [(None, None), (Some("c"), None), (None, Some("s"))] {
        let action = handle_callback(CallbackQuery {
            code: code.map(|s: &str| s.to_string()),
            state: state.map(|s: &str| s.to_string()),
            error: None,
            error_description: None,
        });
        assert!(matches!(action, CallbackAction::Invalid));
        let response = CallbackResponse::immediate(&action).unwrap();
        assert_eq!(response.status, 400);
        assert!(response.body.contains("Missing required parameters."));
    }
}

#[test]
fn answers_after_a_sign_in() {
    let ok = CallbackResponse::after_sign_in(&Ok("id".to_string()));
    assert_eq!(ok.status, 200);
    assert!(ok.body.contains("Authentication Successful!"));
    let failed = CallbackResponse::after_sign_in(&Err(AccountsError::InvalidState));
    assert_eq!(failed.status, 500);
    assert_eq!(failed.body, "Failed to authenticate user: Invalid state token");
    assert_eq!(CallbackResponse::success().status, 200);
    assert_eq!(CallbackResponse::invalid().status, 400);
    assert_eq!(CallbackResponse::provider_error("e", "d").status, 400);
    assert_eq!(
        CallbackResponse::failure(&AccountsError::AccountAlreadyExists).body,
        "Failed to authenticate user: Account already exists"
    );
}

#[test]
fn google_identity_is_read_from_json() {
    let response = IdentityResponse {
        success: true,
        status: "200 OK".to_string(),
        body: "{\"name\":\"Ada L\",\"email\":\"ada@example.com\",\"id\":7}".to_string(),
    };
    let info = read_user_info(&Provider::Google, &response).unwrap();
    assert_eq!(info.display_name, "Ada L");
    assert_eq!(info.username, "ada@example.com");
    assert_eq!(info.email, Some("ada@example.com".to_string()));
    let sparse = IdentityResponse {
        success: true,
        status: "200 OK".to_string(),
        body: "{\"name\":5,\"mail\":\"x\"}".to_string(),
    };
    let info = read_user_info(&Provider::Google, &sparse).unwrap();
    assert_eq!(info.display_name, "Unknown");
    assert_eq!(info.username, "Unknown");
    assert_eq!(info.email, None);
    let no_object = IdentityResponse {
        success: true,
        status: "200 OK".to_string(),
        body: "[1,2]".to_string(),
    };
    assert_eq!(read_user_info(&Provider::Google, &no_object).unwrap().username, "Unknown");
}

#[test]
fn microsoft_identity_is_read_from_json() {
    let response = IdentityResponse {
        success: true,
        status: "200 OK".to_string(),
        body: "{\"displayName\":\"Bob\",\"userPrincipalName\":\"bob@contoso.com\",\"mail\":null}"
            .to_string(),
    };
    let info = read_user_info(&Provider::Microsoft, &response).unwrap();
    assert_eq!(info.display_name, "Bob");
    assert_eq!(info.username, "bob@contoso.com");
    assert_eq!(info.email, Some("bob@contoso.com".to_string()));
    let with_mail = IdentityResponse {
        success: true,
        status: "200 OK".to_string(),
        body: "{\"userPrincipalName\":\"bob@contoso.com\",\"mail\":\"bob@mail.com\"}".to_string(),
    };
    let info = read_user_info(&Provider::Microsoft, &with_mail).unwrap();
    assert_eq!(info.display_name, "Unknown");
    assert_eq!(info.email, Some("bob@mail.com".to_string()));
}

#[test]
fn identity_failures_are_reported() {
    let refused = IdentityResponse {
        success: false,
        status: "401 Unauthorized".to_string(),
        body: "denied".to_string(),
    };
    match read_user_info(&Provider::Google, &refused) {
        Err(AccountsError::AuthenticationFailed { reason }) => {
            assert_eq!(reason, "Failed to get user info: 401 Unauthorized - denied")
        }
        _ => panic!("expected AuthenticationFailed"),
    }
    let broken = IdentityResponse {
        success: true,
        status: "200 OK".to_string(),
        body: "{\"name\":".to_string(),
    };
    assert!(matches!(
        read_user_info(&Provider::Microsoft, &broken),
        Err(AccountsError::Serialization(_))
    ));
}

#[test]
fn account_becomes_a_bus_record() {
    let mut a = account(0x550e8400_e29b_41d4_a716_446655440000, Provider::Google, Some("a@x.com"));
    a.last_used = Some(Timestamp { secs: 1_431_648_001, nanos: 500_000_000 });
    a.capabilities.insert(Capability::Todo, true);
    let d = DbusAccount::from_account(&a);
    assert_eq!(d.id, "550e8400-e29b-41d4-a716-446655440000");
    assert_eq!(d.provider, "Google");
    assert_eq!(d.display_name, "Ada");
    assert_eq!(d.username, "ada");
    assert_eq!(d.email, Some("a@x.com".to_string()));
    assert!(d.enabled);
    assert_eq!(d.created_at, "2015-05-15 00:00:00 UTC");
    assert_eq!(d.last_used, Some("2015-05-15 00:00:01.500 UTC".to_string()));
    let switches: Vec<(String, bool)> =
        d.services.iter().map(|x| (x.name.clone(), x.enabled)).collect();
    assert_eq!(
        switches,
        vec![
            ("Calendar".to_string(), false),
            ("Email".to_string(), false),
            ("Todo".to_string(), true)
        ]
    );
    let back = d.into_account().unwrap();
    assert!(back == a);
}

#[test]
fn bus_record_with_a_bad_field_stands_for_no_account() {
    let a = account(1, Provider::Microsoft, None);
    let mut bad_id = DbusAccount::from_account(&a);
    bad_id.id = "nonsense".to_string();
    assert!(bad_id.into_account().is_none());
    let mut bad_provider = DbusAccount::from_account(&a);
    bad_provider.provider = "GitHub".to_string();
    assert!(bad_provider.into_account().is_none());
    let mut bad_time = DbusAccount::from_account(&a);
    bad_time.created_at = "yesterday".to_string();
    assert!(bad_time.into_account().is_none());
    let mut bad_switch = DbusAccount::from_account(&a);
    bad_switch.services.push(DbusSwitch { name: "Files".to_string(), enabled: true });
    assert!(bad_switch.into_account().is_none());
    let mut bad_last_used = DbusAccount::from_account(&a);
    bad_last_used.last_used = Some("never".to_string());
    let read = bad_last_used.into_account().unwrap();
    assert_eq!(read.last_used, None);
    assert_eq!(read.provider, Provider::Microsoft);
}

#[test]
fn times_and_switches_are_read_from_texts() {
    assert_eq!(time_to_text(Timestamp { secs: 0, nanos: 0 }), "1970-01-01 00:00:00 UTC");
    assert_eq!(time_to_text(Timestamp { secs: i64::MAX, nanos: 0 }), "");
    assert_eq!(
        time_from_text("2015-05-15T00:00:00Z"),
        Some(Timestamp { secs: 1_431_648_000, nanos: 0 })
    );
    assert_eq!(time_from_text(""), None);
    let list = vec![
        DbusSwitch { name: "email".to_string(), enabled: true },
        DbusSwitch { name: "Todo".to_string(), enabled: false },
        DbusSwitch { name: "EMAIL".to_string(), enabled: false },
    ];
    let table = switches_from_list(&list).unwrap();
    assert_eq!(
        table.entries(),
        vec![(Capability::Email, false), (Capability::Todo, false)]
    );
    assert_eq!(switches_from_list(&Vec::new()).unwrap().len(), 0);
}

#[test]
fn mail_settings_follow_the_provider() {
    let mail = MailService::new("google-1".to_string());
    assert_eq!(mail.name(), "Mail");
    assert_eq!(mail.interface_name(), "dev.edfloreshz.Accounts.Mail");
    let google = account(1, Provider::Google, Some("a@x.com"));
    assert!(mail.is_supported(&google));
    let c = mail.get_config(&google);
    assert_eq!(c.service_type, "Mail");
    assert_eq!(c.provider_type, "Google");
    assert_eq!(c.settings.len(), 9);
    assert_eq!(text_of(c.get("imap_host")), "imap.gmail.com");
    assert_eq!(text_of(c.get("smtp_host")), "smtp.gmail.com");
    assert!(flag_of(c.get("imap_use_ssl")));
    assert!(flag_of(c.get("smtp_use_tls")));
    assert!(flag_of(c.get("smtp_auth_xoauth2")));
    assert_eq!(text_of(c.get("email_address")), "a@x.com");
    assert_eq!(text_of(c.get("imap_user_name")), "a@x.com");
    assert_eq!(text_of(c.get("smtp_user_name")), "a@x.com");
    assert_eq!(text_of(c.get("name")), "Ada");
    assert!(c.get("uri").is_none());
    let microsoft = account(2, Provider::Microsoft, None);
    let c = mail.get_config(&microsoft);
    assert_eq!(c.provider_type, "Microsoft");
    assert_eq!(c.settings.len(), 6);
    assert_eq!(text_of(c.get("imap_host")), "outlook.office365.com");
    assert_eq!(text_of(c.get("smtp_host")), "smtp.office365.com");
    assert!(c.get("email_address").is_none());
    assert_eq!(mail.imap_host(), Some("imap.gmail.com"));
    assert_eq!(mail.smtp_host(), Some("smtp.gmail.com"));
    let other = MailService::new("a-microsoft-b".to_string());
    assert_eq!(other.imap_host(), Some("outlook.office365.com"));
    assert_eq!(other.smtp_host(), Some("smtp.office365.com"));
    assert_eq!(MailService::new("x".to_string()).imap_host(), None);
}

#[test]
fn calendar_contacts_and_todo_settings_follow_the_provider() {
    let google = account(1, Provider::Google, None);
    let microsoft = account(2, Provider::Microsoft, None);
    let calendar = CalendarService::new(google.clone());
    assert_eq!(calendar.name(), "Calendar");
    assert_eq!(calendar.interface_name(), "dev.edfloreshz.Accounts.Calendar");
    assert_eq!(calendar.uri(), "https://apidata.googleusercontent.com/caldav/v2/");
    assert!(!calendar.accept_ssl_errors());
    assert_eq!(
        calendar.object_path(),
        "/dev/edfloreshz/Accounts/Calendar/00000000_0000_0000_0000_000000000001"
    );
    assert!(calendar.is_supported(&google));
    let c = calendar.get_config(&microsoft);
    assert_eq!(c.service_type, "Calendar");
    assert_eq!(c.provider_type, "Microsoft");
    assert_eq!(text_of(c.get("uri")), "https://outlook.office365.com/");
    assert!(!flag_of(c.get("accept_ssl_errors")));
    assert_eq!(CalendarService::new(microsoft.clone()).uri(), "https://outlook.office365.com/");
    let contacts = ContactsService::new("google".to_string());
    assert_eq!(contacts.name(), "Contacts");
    assert_eq!(contacts.interface_name(), "dev.edfloreshz.Accounts.Contacts");
    assert!(!contacts.is_supported(&google));
    assert_eq!(contacts.uri(), Some("https://www.googleapis.com/.well-known/carddav"));
    let c = contacts.get_config(&google);
    assert_eq!(c.service_type, "Contacts");
    assert_eq!(text_of(c.get("uri")), "https://www.googleapis.com/.well-known/carddav");
    assert!(!flag_of(c.get("accept_ssl_errors")));
    assert_eq!(
        text_of(contacts.get_config(&microsoft).get("uri")),
        "https://outlook.office365.com/"
    );
    let todo = TodoService::new("microsoft".to_string());
    assert_eq!(todo.name(), "Todo");
    assert_eq!(todo.interface_name(), "dev.edfloreshz.Accounts.Todo");
    assert!(todo.is_supported(&google));
    assert_eq!(todo.uri(), Some("https://graph.microsoft.com/v1.0/me/todo"));
    let c = todo.get_config(&google);
    assert_eq!(c.service_type, "Todo");
    assert_eq!(c.settings.len(), 1);
    assert_eq!(text_of(c.get("uri")), "https://tasks.googleapis.com/tasks/v1/");
    assert_eq!(
        text_of(todo.get_config(&microsoft).get("uri")),
        "https://graph.microsoft.com/v1.0/me/todo"
    );
    assert_eq!(provider_in_id("my-google-microsoft"), Some(Provider::Google));
    assert_eq!(provider_in_id("Google"), None);
}

#[test]
fn services_are_made_for_switched_on_calendars() {
    let mut a = account(1, Provider::Google, None);
    assert!(ServiceFactory::create_services(&a).is_empty());
    a.capabilities.insert(Capability::Calendar, true);
    let made = ServiceFactory::create_services(&a);
    assert_eq!(made.len(), 1);
    assert_eq!(made[0].name(), "Calendar");
    assert_eq!(made[0].interface_name(), "dev.edfloreshz.Accounts.Calendar");
    assert_eq!(made[0].capability(), Capability::Calendar);
    assert!(made[0].is_supported(&a));
    assert_eq!(made[0].get_config(&a).service_type, "Calendar");
    assert!(ServiceFactory::create_service(&a, &Capability::Calendar).is_some());
    assert!(ServiceFactory::create_service(&a, &Capability::Email).is_none());
    assert!(ServiceFactory::create_service(&a, &Capability::Contacts).is_none());
    assert!(ServiceFactory::create_service(&a, &Capability::Todo).is_none());
    assert_eq!(
        ServiceFactory::available_services(),
        vec!["mail", "calendar", "contacts", "tasks"]
    );
    let mail = AccountService::Mail(MailService::new("x".to_string()));
    assert_eq!(mail.name(), "Mail");
    assert_eq!(mail.capability(), Capability::Email);
    assert!(mail.is_supported(&a));
    let todo = AccountService::Todo(TodoService::new("x".to_string()));
    assert!(todo.is_supported(&a));
    assert_eq!(todo.get_config(&a).service_type, "Todo");
    let contacts = AccountService::Contacts(ContactsService::new("x".to_string()));
    assert!(!contacts.is_supported(&a));
}

#[test]
fn access_token_is_given_fresh_or_after_a_refresh() {
    let mut s = service();
    let created = Timestamp { secs: 1_000, nanos: 0 };
    s.complete_authentication_with(
        Provider::Google,
        grant("tok1", Some("ref1"), Some(60)),
        user("a@x.com"),
        AccountId(1),
        created,
    )
    .unwrap();
    let early = Timestamp { secs: 1_059, nanos: 0 };
    assert_eq!(token_of(s.get_access_token_at(ID_ONE, &early)), "tok1");
    assert_eq!(token_of(s.get_access_token_at(ID_ONE, &early)), "tok1");
    let late = Timestamp { secs: 1_060, nanos: 0 };
    match s.get_access_token_at(ID_ONE, &late) {
        Ok(AccessTokenStep::Refresh(request)) => {
            assert_eq!(request.account_id, AccountId(1));
            assert_eq!(request.refresh_token, "ref1");
        }
        _ => panic!("expected a refresh request"),
    }
    s.auth_manager.refresh_token_at(&AccountId(1), &grant("tok2", None, Some(60)), &late).unwrap();
    assert_eq!(token_of(s.get_access_token_at(ID_ONE, &late)), "tok2");
    assert!(matches!(
        s.get_access_token_at("00000000-0000-0000-0000-000000000009", &late),
        Err(AccountsError::AccountNotFound(_))
    ));
    assert!(matches!(
        s.get_access_token_at("zzz", &late),
        Err(AccountsError::InvalidArguments(_))
    ));
    s.auth_manager.delete_credentials(&AccountId(1));
    assert!(matches!(
        s.get_access_token_at(ID_ONE, &late),
        Err(AccountsError::StorageError(_))
    ));
    assert!(matches!(s.get_refresh_token(ID_ONE), Err(AccountsError::StorageError(_))));
}

#[test]
fn every_account_is_checked_on_its_own() {
    let mut s = service();
    let created = Timestamp { secs: 1_000, nanos: 0 };
    s.complete_authentication_with(
        Provider::Google,
        grant("tok1", None, Some(60)),
        user("a@x.com"),
        AccountId(1),
        created,
    )
    .unwrap();
    s.complete_authentication_with(
        Provider::Google,
        grant("tok2", Some("ref2"), Some(60)),
        user("b@x.com"),
        AccountId(2),
        created,
    )
    .unwrap();
    s.complete_authentication_with(
        Provider::Google,
        grant("tok3", None, None),
        user("c@x.com"),
        AccountId(3),
        created,
    )
    .unwrap();
    let early = s.ensure_all_credentials_at(&created);
    assert_eq!(early.len(), 3);
    assert!(early.iter().all(|c| matches!(c.outcome, Ok(None))));
    let late = s.ensure_all_credentials_at(&Timestamp { secs: 2_000, nanos: 0 });
    assert_eq!(late[0].account_id, AccountId(1));
    assert!(matches!(late[0].outcome, Err(AccountsError::TokenExpired { .. })));
    assert_eq!(late[1].account_id, AccountId(2));
    assert!(matches!(late[1].outcome, Ok(Some(ref r)) if r.refresh_token == "ref2"));
    assert_eq!(late[2].account_id, AccountId(3));
    assert!(matches!(late[2].outcome, Ok(None)));
    assert_eq!(s.ensure_all_credentials().len(), 3);
}

#[test]
fn partial_removal_is_a_failure_of_its_own() {
    match report_removal(ID_ONE, Ok(())) {
        Ok(Notification::AccountRemoved(id)) => assert_eq!(id, ID_ONE),
        _ => panic!("expected AccountRemoved"),
    }
    let failed = report_removal("id-1", Err(AccountsError::CredentialStorage("locked".to_string())));
    match failed {
        Err(AccountsError::AccountNotRemoved(detail)) => assert_eq!(
            detail,
            "Account id-1 was removed, its secret was not: Storage error: locked"
        ),
        _ => panic!("expected AccountNotRemoved"),
    }
    match AccountsError::not_updated("id-1", "disk full") {
        AccountsError::AccountNotUpdated(detail) => {
            assert_eq!(detail, "Account id-1 not updated: disk full")
        }
        _ => panic!("expected AccountNotUpdated"),
    }
    match AccountsError::not_removed("id-1", "disk full") {
        AccountsError::AccountNotRemoved(detail) => {
            assert_eq!(detail, "Account id-1 not removed: disk full")
        }
        _ => panic!("expected AccountNotRemoved"),
    }
}

#[test]
fn bus_records_are_filtered_by_switch() {
    let mut a = account(1, Provider::Google, None);
    a.capabilities.insert(Capability::Calendar, true);
    let mut record = DbusAccount::from_account(&a);
    assert!(record.serves(Capability::Calendar));
    assert!(!record.serves(Capability::Email));
    assert!(!record.serves(Capability::Todo));
    record.services.push(DbusSwitch { name: "Email".to_string(), enabled: true });
    assert!(!record.serves(Capability::Email));
    record.services.push(DbusSwitch { name: "Todo".to_string(), enabled: true });
    assert!(record.serves(Capability::Todo));
    record.enabled = false;
    assert!(!record.serves(Capability::Calendar));
    assert!(!record.serves(Capability::Todo));
}
