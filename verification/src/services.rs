//! The services that stand behind the capabilities: what each is called,
//! whether an account supports it, and the settings it hands to its users.

use vstd::prelude::*;
use vstd::string::StringExecFns;
use crate::account::{Account, AccountView};
use crate::capability::Capability;
use crate::provider::Provider;
use crate::outside::contains_text;
use crate::text::{holds_text, same_text};

verus! {

/// The value of a setting: a text or a flag.
#[derive(Debug)]
pub enum SettingValue {
    Text(String),
    Flag(bool),
}

/// What the value of a setting holds.
pub enum SettingView {
    Text(Seq<char>),
    Flag(bool),
}

impl View for SettingValue {
    type V = SettingView;

    open spec fn view(&self) -> SettingView {
        match self {
            SettingValue::Text(s) => SettingView::Text(s@),
            SettingValue::Flag(b) => SettingView::Flag(*b),
        }
    }
}

/// One setting of a service: its key and its value.
#[derive(Debug)]
pub struct Setting {
    pub key: String,
    pub value: SettingValue,
}

/// What a list of settings holds.
pub open spec fn setting_views(v: Seq<Setting>) -> Seq<(Seq<char>, SettingView)> {
    Seq::new(v.len(), |i: int| (v[i].key@, v[i].value@))
}

/// The settings that a service hands to its users for one account.
#[derive(Debug)]
pub struct ServiceConfig {
    pub service_type: String,
    pub provider_type: String,
    pub settings: Vec<Setting>,
}

/// What a service's settings hold.
pub struct ServiceConfigView {
    pub service_type: Seq<char>,
    pub provider_type: Seq<char>,
    pub settings: Seq<(Seq<char>, SettingView)>,
}

impl View for ServiceConfig {
    type V = ServiceConfigView;

    open spec fn view(&self) -> ServiceConfigView {
        ServiceConfigView {
            service_type: self.service_type@,
            provider_type: self.provider_type@,
            settings: setting_views(self.settings@),
        }
    }
}

impl ServiceConfig {
    /// The value of the first setting with the key, if there is one.
    pub fn get(&self, key: &str) -> (r: Option<&SettingValue>)
        ensures
            match r {
                Some(v) => exists|i: int|
                    0 <= i < self@.settings.len() && (#[trigger] self@.settings[i]) == (key@, v@)
                        && forall|j: int| 0 <= j < i ==> (#[trigger] self@.settings[j]).0 != key@,
                None => forall|i: int|
                    0 <= i < self@.settings.len() ==> (#[trigger] self@.settings[i]).0 != key@,
            },
    {
        let mut i: usize = 0;
        while i < self.settings.len()
            invariant
                i <= self.settings.len(),
                forall|j: int| 0 <= j < i ==> (#[trigger] self@.settings[j]).0 != key@,
            decreases self.settings.len() - i,
        {
            if same_text(self.settings[i].key.as_str(), key) {
                assert(self@.settings[i as int] == (key@, self.settings[i as int].value@));
                return Some(&self.settings[i].value);
            }
            i += 1;
        }
        None
    }
}

/// A setting whose value is a text.
fn text_setting(key: &str, value: &str) -> (r: Setting)
    ensures
        r.key@ == key@,
        r.value@ == SettingView::Text(value@),
{
    Setting { key: String::from_str(key), value: SettingValue::Text(String::from_str(value)) }
}

/// A setting whose value is a flag.
fn flag_setting(key: &str, value: bool) -> (r: Setting)
    ensures
        r.key@ == key@,
        r.value@ == SettingView::Flag(value),
{
    Setting { key: String::from_str(key), value: SettingValue::Flag(value) }
}

/// The address of the calendar server of a provider.
pub open spec fn calendar_uri(p: Provider) -> Seq<char> {
    match p {
        Provider::Google => "https://apidata.googleusercontent.com/caldav/v2/"@,
        Provider::Microsoft => "https://outlook.office365.com/"@,
    }
}

/// The address of the contacts server of a provider.
pub open spec fn contacts_uri(p: Provider) -> Seq<char> {
    match p {
        Provider::Google => "https://www.googleapis.com/.well-known/carddav"@,
        Provider::Microsoft => "https://outlook.office365.com/"@,
    }
}

/// The address of the task service of a provider.
pub open spec fn todo_uri(p: Provider) -> Seq<char> {
    match p {
        Provider::Google => "https://tasks.googleapis.com/tasks/v1/"@,
        Provider::Microsoft => "https://graph.microsoft.com/v1.0/me/todo"@,
    }
}

/// The host that receives mail for a provider's accounts.
pub open spec fn imap_host_of(p: Provider) -> Seq<char> {
    match p {
        Provider::Google => "imap.gmail.com"@,
        Provider::Microsoft => "outlook.office365.com"@,
    }
}

/// The host that sends mail for a provider's accounts.
pub open spec fn smtp_host_of(p: Provider) -> Seq<char> {
    match p {
        Provider::Google => "smtp.gmail.com"@,
        Provider::Microsoft => "smtp.office365.com"@,
    }
}

/// The provider that an identifier text names: Google if it holds `google`,
/// else Microsoft if it holds `microsoft`.
pub open spec fn provider_named_in(id: Seq<char>) -> Option<Provider> {
    if holds_text(id, "google"@) {
        Some(Provider::Google)
    } else if holds_text(id, "microsoft"@) {
        Some(Provider::Microsoft)
    } else {
        None
    }
}

/// The provider that an identifier text names, if it names one.
pub fn provider_in_id(id: &str) -> (r: Option<Provider>)
    ensures
        r == provider_named_in(id@),
{
    if contains_text(id, "google") {
        Some(Provider::Google)
    } else if contains_text(id, "microsoft") {
        Some(Provider::Microsoft)
    } else {
        None
    }
}

/// The settings of the calendar service for an account.
pub open spec fn calendar_config(a: AccountView) -> ServiceConfigView {
    ServiceConfigView {
        service_type: "Calendar"@,
        provider_type: a.provider.label(),
        settings: seq![
            ("uri"@, SettingView::Text(calendar_uri(a.provider))),
            ("accept_ssl_errors"@, SettingView::Flag(false)),
        ],
    }
}

/// The settings of the contacts service for an account.
pub open spec fn contacts_config(a: AccountView) -> ServiceConfigView {
    ServiceConfigView {
        service_type: "Contacts"@,
        provider_type: a.provider.label(),
        settings: seq![
            ("uri"@, SettingView::Text(contacts_uri(a.provider))),
            ("accept_ssl_errors"@, SettingView::Flag(false)),
        ],
    }
}

/// The settings of the task service for an account.
pub open spec fn todo_config(a: AccountView) -> ServiceConfigView {
    ServiceConfigView {
        service_type: "Todo"@,
        provider_type: a.provider.label(),
        settings: seq![("uri"@, SettingView::Text(todo_uri(a.provider)))],
    }
}

/// The settings of the mail service for an account: the provider's hosts and
/// modes, the account's mail address under three keys if it has one, and the
/// account's display name.
pub open spec fn mail_config(a: AccountView) -> ServiceConfigView {
    let hosts = seq![
        ("imap_host"@, SettingView::Text(imap_host_of(a.provider))),
        ("smtp_host"@, SettingView::Text(smtp_host_of(a.provider))),
        ("imap_use_ssl"@, SettingView::Flag(true)),
        ("smtp_use_tls"@, SettingView::Flag(true)),
        ("smtp_auth_xoauth2"@, SettingView::Flag(true)),
    ];
    let address = match a.email {
        Some(email) => seq![
            ("email_address"@, SettingView::Text(email)),
            ("imap_user_name"@, SettingView::Text(email)),
            ("smtp_user_name"@, SettingView::Text(email)),
        ],
        None => Seq::empty(),
    };
    ServiceConfigView {
        service_type: "Mail"@,
        provider_type: a.provider.label(),
        settings: hosts + address + seq![("name"@, SettingView::Text(a.display_name))],
    }
}

/// The mail service of an account.
#[derive(Debug)]
pub struct MailService {
    pub account_id: String,
}

impl MailService {
    pub fn new(account_id: String) -> (r: MailService)
        ensures
            r.account_id@ == account_id@,
    {
        MailService { account_id }
    }

    /// The service's name.
    pub fn name(&self) -> (r: &'static str)
        ensures
            r@ == "Mail"@,
    {
        "Mail"
    }

    /// The name of the service's interface on the message bus.
    pub fn interface_name(&self) -> (r: &'static str)
        ensures
            r@ == "dev.edfloreshz.Accounts.Mail"@,
    {
        "dev.edfloreshz.Accounts.Mail"
    }

    /// Whether the account has a mail switch.
    pub fn is_supported(&self, account: &Account) -> (r: bool)
        ensures
            r == account@.capabilities@.contains_key(Capability::Email),
    {
        account.capabilities.contains_key(Capability::Email)
    }

    /// The host that receives mail, by the provider that the account's
    /// identifier names.
    pub fn imap_host(&self) -> (r: Option<&'static str>)
        ensures
            match provider_named_in(self.account_id@) {
                Some(p) => r matches Some(s) && s@ == imap_host_of(p),
                None => r is None,
            },
    {
        match provider_in_id(self.account_id.as_str()) {
            Some(Provider::Google) => Some("imap.gmail.com"),
            Some(Provider::Microsoft) => Some("outlook.office365.com"),
            None => None,
        }
    }

    /// The host that sends mail, by the provider that the account's
    /// identifier names.
    pub fn smtp_host(&self) -> (r: Option<&'static str>)
        ensures
            match provider_named_in(self.account_id@) {
                Some(p) => r matches Some(s) && s@ == smtp_host_of(p),
                None => r is None,
            },
    {
        match provider_in_id(self.account_id.as_str()) {
            Some(Provider::Google) => Some("smtp.gmail.com"),
            Some(Provider::Microsoft) => Some("smtp.office365.com"),
            None => None,
        }
    }

    /// The settings of the mail service for an account.
    pub fn get_config(&self, account: &Account) -> (r: ServiceConfig)
        ensures
            r@ == mail_config(account@),
    {
        let mut settings: Vec<Setting> = Vec::new();
        match account.provider {
            Provider::Google => {
                settings.push(text_setting("imap_host", "imap.gmail.com"));
                settings.push(text_setting("smtp_host", "smtp.gmail.com"));
            },
            Provider::Microsoft => {
                settings.push(text_setting("imap_host", "outlook.office365.com"));
                settings.push(text_setting("smtp_host", "smtp.office365.com"));
            },
        }
        settings.push(flag_setting("imap_use_ssl", true));
        settings.push(flag_setting("smtp_use_tls", true));
        settings.push(flag_setting("smtp_auth_xoauth2", true));
        if let Some(email) = &account.email {
            settings.push(text_setting("email_address", email.as_str()));
            settings.push(text_setting("imap_user_name", email.as_str()));
            settings.push(text_setting("smtp_user_name", email.as_str()));
        }
        settings.push(text_setting("name", account.display_name.as_str()));
        assert(setting_views(settings@) =~= mail_config(account@).settings);
        ServiceConfig {
            service_type: String::from_str("Mail"),
            provider_type: account.provider.to_string(),
            settings,
        }
    }
}

/// The calendar service of an account.
#[derive(Debug)]
pub struct CalendarService {
    pub account: Account,
}

impl CalendarService {
    pub fn new(account: Account) -> (r: CalendarService)
        ensures
            r.account@ == account@,
    {
        CalendarService { account }
    }

    /// The service's name.
    pub fn name(&self) -> (r: &'static str)
        ensures
            r@ == "Calendar"@,
    {
        "Calendar"
    }

    /// The name of the service's interface on the message bus.
    pub fn interface_name(&self) -> (r: &'static str)
        ensures
            r@ == "dev.edfloreshz.Accounts.Calendar"@,
    {
        "dev.edfloreshz.Accounts.Calendar"
    }

    /// Whether the account has a calendar switch.
    pub fn is_supported(&self, account: &Account) -> (r: bool)
        ensures
            r == account@.capabilities@.contains_key(Capability::Calendar),
    {
        account.capabilities.contains_key(Capability::Calendar)
    }

    /// The address of the calendar server of the account's provider.
    pub fn uri(&self) -> (r: &'static str)
        ensures
            r@ == calendar_uri(self.account@.provider),
    {
        match self.account.provider {
            Provider::Google => "https://apidata.googleusercontent.com/caldav/v2/",
            Provider::Microsoft => "https://outlook.office365.com/",
        }
    }

    /// Whether certificate errors are accepted: never.
    pub fn accept_ssl_errors(&self) -> (r: bool)
        ensures
            !r,
    {
        false
    }

    /// The object path under which the service is registered on the bus.
    pub fn object_path(&self) -> (r: String)
        ensures
            r@ == "/dev/edfloreshz/Accounts/Calendar/"@ + crate::outside::replaced(
                crate::outside::uuid_text(self.account@.id.0),
                "-"@,
                "_"@,
            ),
    {
        let id = self.account.dbus_id();
        String::from_str("/dev/edfloreshz/Accounts/Calendar/").concat(id.as_str())
    }

    /// The settings of the calendar service for an account.
    pub fn get_config(&self, account: &Account) -> (r: ServiceConfig)
        ensures
            r@ == calendar_config(account@),
    {
        let mut settings: Vec<Setting> = Vec::new();
        match account.provider {
            Provider::Google => {
                settings.push(
                    text_setting("uri", "https://apidata.googleusercontent.com/caldav/v2/"),
                );
            },
            Provider::Microsoft => {
                settings.push(text_setting("uri", "https://outlook.office365.com/"));
            },
        }
        settings.push(flag_setting("accept_ssl_errors", false));
        assert(setting_views(settings@) =~= calendar_config(account@).settings);
        ServiceConfig {
            service_type: String::from_str("Calendar"),
            provider_type: account.provider.to_string(),
            settings,
        }
    }
}

/// The contacts service of an account.
#[derive(Debug)]
pub struct ContactsService {
    pub account_id: String,
}

impl ContactsService {
    pub fn new(account_id: String) -> (r: ContactsService)
        ensures
            r.account_id@ == account_id@,
    {
        ContactsService { account_id }
    }

    /// The service's name.
    pub fn name(&self) -> (r: &'static str)
        ensures
            r@ == "Contacts"@,
    {
        "Contacts"
    }

    /// The name of the service's interface on the message bus.
    pub fn interface_name(&self) -> (r: &'static str)
        ensures
            r@ == "dev.edfloreshz.Accounts.Contacts"@,
    {
        "dev.edfloreshz.Accounts.Contacts"
    }

    /// Whether the account has a contacts switch.
    pub fn is_supported(&self, account: &Account) -> (r: bool)
        ensures
            r == account@.capabilities@.contains_key(Capability::Contacts),
    {
        account.capabilities.contains_key(Capability::Contacts)
    }

    /// The address of the contacts server, by the provider that the
    /// account's identifier names.
    pub fn uri(&self) -> (r: Option<&'static str>)
        ensures
            match provider_named_in(self.account_id@) {
                Some(p) => r matches Some(s) && s@ == contacts_uri(p),
                None => r is None,
            },
    {
        match provider_in_id(self.account_id.as_str()) {
            Some(Provider::Google) => Some("https://www.googleapis.com/.well-known/carddav"),
            Some(Provider::Microsoft) => Some("https://outlook.office365.com/"),
            None => None,
        }
    }

    /// The settings of the contacts service for an account.
    pub fn get_config(&self, account: &Account) -> (r: ServiceConfig)
        ensures
            r@ == contacts_config(account@),
    {
        let mut settings: Vec<Setting> = Vec::new();
        match account.provider {
            Provider::Google => {
                settings.push(text_setting("uri", "https://www.googleapis.com/.well-known/carddav"));
            },
            Provider::Microsoft => {
                settings.push(text_setting("uri", "https://outlook.office365.com/"));
            },
        }
        settings.push(flag_setting("accept_ssl_errors", false));
        assert(setting_views(settings@) =~= contacts_config(account@).settings);
        ServiceConfig {
            service_type: String::from_str("Contacts"),
            provider_type: account.provider.to_string(),
            settings,
        }
    }
}

/// The task service of an account.
#[derive(Debug)]
pub struct TodoService {
    pub account_id: String,
}

impl TodoService {
    pub fn new(account_id: String) -> (r: TodoService)
        ensures
            r.account_id@ == account_id@,
    {
        TodoService { account_id }
    }

    /// The service's name.
    pub fn name(&self) -> (r: &'static str)
        ensures
            r@ == "Todo"@,
    {
        "Todo"
    }

    /// The name of the service's interface on the message bus.
    pub fn interface_name(&self) -> (r: &'static str)
        ensures
            r@ == "dev.edfloreshz.Accounts.Todo"@,
    {
        "dev.edfloreshz.Accounts.Todo"
    }

    /// Whether the account's provider offers tasks: every provider does.
    pub fn is_supported(&self, account: &Account) -> (r: bool)
        ensures
            r,
    {
        match account.provider {
            Provider::Google => true,
            Provider::Microsoft => true,
        }
    }

    /// The address of the task service, by the provider that the account's
    /// identifier names.
    pub fn uri(&self) -> (r: Option<&'static str>)
        ensures
            match provider_named_in(self.account_id@) {
                Some(p) => r matches Some(s) && s@ == todo_uri(p),
                None => r is None,
            },
    {
        match provider_in_id(self.account_id.as_str()) {
            Some(Provider::Google) => Some("https://tasks.googleapis.com/tasks/v1/"),
            Some(Provider::Microsoft) => Some("https://graph.microsoft.com/v1.0/me/todo"),
            None => None,
        }
    }

    /// The settings of the task service for an account.
    pub fn get_config(&self, account: &Account) -> (r: ServiceConfig)
        ensures
            r@ == todo_config(account@),
    {
        let mut settings: Vec<Setting> = Vec::new();
        match account.provider {
            Provider::Google => {
                settings.push(text_setting("uri", "https://tasks.googleapis.com/tasks/v1/"));
            },
            Provider::Microsoft => {
                settings.push(text_setting("uri", "https://graph.microsoft.com/v1.0/me/todo"));
            },
        }
        assert(setting_views(settings@) =~= todo_config(account@).settings);
        ServiceConfig {
            service_type: String::from_str("Todo"),
            provider_type: account.provider.to_string(),
            settings,
        }
    }
}

/// A service behind a capability: the closed set of the services there are.
#[derive(Debug)]
pub enum AccountService {
    Mail(MailService),
    Calendar(CalendarService),
    Contacts(ContactsService),
    Todo(TodoService),
}

/// What tells one service from another: its kind, and the account it is for.
pub enum AccountServiceView {
    Mail(Seq<char>),
    Calendar(AccountView),
    Contacts(Seq<char>),
    Todo(Seq<char>),
}

impl View for AccountService {
    type V = AccountServiceView;

    open spec fn view(&self) -> AccountServiceView {
        match self {
            AccountService::Mail(s) => AccountServiceView::Mail(s.account_id@),
            AccountService::Calendar(s) => AccountServiceView::Calendar(s.account@),
            AccountService::Contacts(s) => AccountServiceView::Contacts(s.account_id@),
            AccountService::Todo(s) => AccountServiceView::Todo(s.account_id@),
        }
    }
}

/// The capability that a service stands behind.
pub open spec fn capability_behind(s: AccountServiceView) -> Capability {
    match s {
        AccountServiceView::Mail(_) => Capability::Email,
        AccountServiceView::Calendar(_) => Capability::Calendar,
        AccountServiceView::Contacts(_) => Capability::Contacts,
        AccountServiceView::Todo(_) => Capability::Todo,
    }
}

/// The settings that a service hands out for an account.
pub open spec fn service_config(s: AccountServiceView, a: AccountView) -> ServiceConfigView {
    match s {
        AccountServiceView::Mail(_) => mail_config(a),
        AccountServiceView::Calendar(_) => calendar_config(a),
        AccountServiceView::Contacts(_) => contacts_config(a),
        AccountServiceView::Todo(_) => todo_config(a),
    }
}

impl AccountService {
    /// The capability that the service stands behind.
    pub fn capability(&self) -> (r: Capability)
        ensures
            r == capability_behind(self@),
    {
        match self {
            AccountService::Mail(_) => Capability::Email,
            AccountService::Calendar(_) => Capability::Calendar,
            AccountService::Contacts(_) => Capability::Contacts,
            AccountService::Todo(_) => Capability::Todo,
        }
    }

    /// The service's name.
    pub fn name(&self) -> (r: &'static str)
        ensures
            r@ == match self@ {
                AccountServiceView::Mail(_) => "Mail"@,
                AccountServiceView::Calendar(_) => "Calendar"@,
                AccountServiceView::Contacts(_) => "Contacts"@,
                AccountServiceView::Todo(_) => "Todo"@,
            },
    {
        match self {
            AccountService::Mail(s) => s.name(),
            AccountService::Calendar(s) => s.name(),
            AccountService::Contacts(s) => s.name(),
            AccountService::Todo(s) => s.name(),
        }
    }

    /// The name of the service's interface on the message bus.
    pub fn interface_name(&self) -> (r: &'static str)
        ensures
            r@ == match self@ {
                AccountServiceView::Mail(_) => "dev.edfloreshz.Accounts.Mail"@,
                AccountServiceView::Calendar(_) => "dev.edfloreshz.Accounts.Calendar"@,
                AccountServiceView::Contacts(_) => "dev.edfloreshz.Accounts.Contacts"@,
                AccountServiceView::Todo(_) => "dev.edfloreshz.Accounts.Todo"@,
            },
    {
        match self {
            AccountService::Mail(s) => s.interface_name(),
            AccountService::Calendar(s) => s.interface_name(),
            AccountService::Contacts(s) => s.interface_name(),
            AccountService::Todo(s) => s.interface_name(),
        }
    }

    /// Whether the account supports the service: it has a switch for the
    /// service's capability; tasks are supported by every account.
    pub fn is_supported(&self, account: &Account) -> (r: bool)
        ensures
            r == (self@ is Todo || account@.capabilities@.contains_key(capability_behind(self@))),
    {
        match self {
            AccountService::Mail(s) => s.is_supported(account),
            AccountService::Calendar(s) => s.is_supported(account),
            AccountService::Contacts(s) => s.is_supported(account),
            AccountService::Todo(s) => s.is_supported(account),
        }
    }

    /// The settings that the service hands out for an account.
    pub fn get_config(&self, account: &Account) -> (r: ServiceConfig)
        ensures
            r@ == service_config(self@, account@),
    {
        match self {
            AccountService::Mail(s) => s.get_config(account),
            AccountService::Calendar(s) => s.get_config(account),
            AccountService::Contacts(s) => s.get_config(account),
            AccountService::Todo(s) => s.get_config(account),
        }
    }
}

/// What a list of services holds.
pub open spec fn service_views(v: Seq<AccountService>) -> Seq<AccountServiceView> {
    Seq::new(v.len(), |i: int| v[i]@)
}

/// The services to register for an account at startup: the calendar service
/// if the account's calendar switch is on.
pub open spec fn services_to_register(a: AccountView) -> Seq<AccountServiceView> {
    if a.capabilities.calendar == Some(true) {
        seq![AccountServiceView::Calendar(a)]
    } else {
        Seq::empty()
    }
}

/// The service that is registered and unregistered when a capability of an
/// account is switched: only the calendar has one.
pub open spec fn service_behind(a: AccountView, c: Capability) -> Option<AccountServiceView> {
    match c {
        Capability::Calendar => Some(AccountServiceView::Calendar(a)),
        _ => None,
    }
}

/// Makes the services of accounts.
#[derive(Debug)]
pub struct ServiceFactory;

impl ServiceFactory {
    /// The services to register for an account at startup.
    pub fn create_services(account: &Account) -> (r: Vec<AccountService>)
        ensures
            service_views(r@) == services_to_register(account@),
    {
        let mut services: Vec<AccountService> = Vec::new();
        if account.capabilities.is_enabled(Capability::Calendar) {
            services.push(AccountService::Calendar(CalendarService::new(account.clone())));
        }
        assert(service_views(services@) =~= services_to_register(account@));
        services
    }

    /// The service that is registered and unregistered when a capability of
    /// an account is switched, if the capability has one.
    pub fn create_service(account: &Account, service: &Capability) -> (r: Option<AccountService>)
        ensures
            match r {
                Some(s) => service_behind(account@, *service) == Some(s@),
                None => service_behind(account@, *service) is None,
            },
    {
        match service {
            Capability::Calendar => Some(
                AccountService::Calendar(CalendarService::new(account.clone())),
            ),
            _ => None,
        }
    }

    /// The names by which services are asked for.
    pub fn available_services() -> (r: Vec<&'static str>)
        ensures
            r@.len() == 4,
            r@[0]@ == "mail"@,
            r@[1]@ == "calendar"@,
            r@[2]@ == "contacts"@,
            r@[3]@ == "tasks"@,
    {
        let mut names: Vec<&'static str> = Vec::new();
        names.push("mail");
        names.push("calendar");
        names.push("contacts");
        names.push("tasks");
        names
    }
}

} // verus!
