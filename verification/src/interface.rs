//! The account service: the operations that other desktop components call,
//! over the registry and the sign-in engine, and the notifications that
//! follow them.

use vstd::prelude::*;
use vstd::string::StringExecFns;
use crate::account::{Account, AccountId, AccountView, UserInfo, UserInfoView};
use crate::auth::{
    checked, completion_failure, config_usable, granted_credential, new_account, redeemed_as,
    refresh_decision, start_url, verifier_usable, AuthManager, CodeExchange, RefreshDecision,
    RefreshRequest,
};
use crate::capability::{capability_of_lowercase, Capability};
use crate::config::{
    account_views, after_enable, after_remove, after_switch, find, has_id, index_of,
    with_capability, AccountsConfig,
};
use crate::credential::{expiry_of, CredentialView, TokenGrant, TokenGrantView};
use crate::dbus::{dbus_of_account, DbusAccount};
use crate::error::{message_of, partial_removal_detail, AccountsError, AccountsErrorView};
use crate::outside::{lowercase, uuid_of_text, uuid_text};
use crate::pending::{after_redeem, after_start, PendingAuthorizationView};
use crate::provider::{provider_of_lowercase, Provider, ProviderConfigView, ProviderRegistry};
use crate::services::{service_behind, AccountService, AccountServiceView, ServiceFactory};
use crate::storage::missing_credentials_message;
use crate::time::Timestamp;

verus! {

/// What observers are told after a change.
#[derive(Debug)]
pub enum Notification {
    /// An account was added; the text is its identifier.
    AccountAdded(String),
    /// An account was removed; the text is its identifier.
    AccountRemoved(String),
    /// An account's enabled flag or one of its switches changed.
    AccountChanged(String),
    /// A sign-in ended at an account that is already linked.
    AccountAlreadyExists,
}

/// What a notification holds.
pub enum NotificationView {
    AccountAdded(Seq<char>),
    AccountRemoved(Seq<char>),
    AccountChanged(Seq<char>),
    AccountAlreadyExists,
}

impl View for Notification {
    type V = NotificationView;

    open spec fn view(&self) -> NotificationView {
        match self {
            Notification::AccountAdded(s) => NotificationView::AccountAdded(s@),
            Notification::AccountRemoved(s) => NotificationView::AccountRemoved(s@),
            Notification::AccountChanged(s) => NotificationView::AccountChanged(s@),
            Notification::AccountAlreadyExists => NotificationView::AccountAlreadyExists,
        }
    }
}

/// What to do with the service behind a capability after its switch was set.
#[derive(Debug)]
pub enum ServiceAction {
    /// The capability has no service.
    Nothing,
    /// The switch is on: register the service.
    Add(AccountService),
    /// The switch is off: unregister the service.
    Remove(AccountService),
}

/// What a service action holds.
pub enum ServiceActionView {
    Nothing,
    Add(AccountServiceView),
    Remove(AccountServiceView),
}

impl View for ServiceAction {
    type V = ServiceActionView;

    open spec fn view(&self) -> ServiceActionView {
        match self {
            ServiceAction::Nothing => ServiceActionView::Nothing,
            ServiceAction::Add(s) => ServiceActionView::Add(s@),
            ServiceAction::Remove(s) => ServiceActionView::Remove(s@),
        }
    }
}

/// The service action that follows setting a switch of an account.
pub open spec fn action_after_switch(a: AccountView, c: Capability, enabled: bool) -> ServiceActionView {
    match service_behind(a, c) {
        None => ServiceActionView::Nothing,
        Some(s) => if enabled {
            ServiceActionView::Add(s)
        } else {
            ServiceActionView::Remove(s)
        },
    }
}

/// What an access token's user gets: the token, or first what to exchange at
/// the token endpoint because the token has expired.
#[derive(Debug)]
pub enum AccessTokenStep {
    Token(String),
    Refresh(RefreshRequest),
}

/// How asking for an account's access token ends, given the time of asking:
/// a credential that has not expired gives its access token as it is in the
/// store; an expired one gives what to exchange at the token endpoint first,
/// or the reason why it cannot be refreshed.
pub open spec fn token_step(
    configs: Map<Provider, ProviderConfigView>,
    storage: Map<AccountId, CredentialView>,
    id: AccountId,
    provider: Provider,
    now: Timestamp,
    r: Result<AccessTokenStep, AccountsError>,
) -> bool {
    match refresh_decision(configs, storage, id, provider, now) {
        RefreshDecision::Missing => r matches Err(e) && e@ == AccountsErrorView::StorageError(
            missing_credentials_message(id),
        ),
        RefreshDecision::Fresh => r matches Ok(AccessTokenStep::Token(t)) && t@
            == storage[id].access_token,
        RefreshDecision::NoSettings => r matches Err(e) && e@
            == AccountsErrorView::InvalidProviderConfig,
        RefreshDecision::Expired => r matches Err(e) && e@ == (AccountsErrorView::TokenExpired {
            account_id: uuid_text(id.0),
        }),
        RefreshDecision::BadSettings => r matches Err(e) && e@ is UrlParse,
        RefreshDecision::Refresh(request) => r matches Ok(AccessTokenStep::Refresh(x)) && x@
            == request,
    }
}

/// The check of one account's credential: the account, and how the check
/// ended.
#[derive(Debug)]
pub struct CredentialCheck {
    pub account_id: AccountId,
    pub outcome: Result<Option<RefreshRequest>, AccountsError>,
}

/// Whether a list of checks holds, for each account in order, how the check
/// of that account's credential ends at the given time.
pub open spec fn all_checked(
    configs: Map<Provider, ProviderConfigView>,
    storage: Map<AccountId, CredentialView>,
    accounts: Seq<AccountView>,
    now: Timestamp,
    checks: Seq<CredentialCheck>,
) -> bool {
    &&& checks.len() == accounts.len()
    &&& forall|i: int|
        0 <= i < checks.len() ==> (#[trigger] checks[i]).account_id == accounts[i].id && checked(
            configs,
            storage,
            accounts[i].id,
            accounts[i].provider,
            now,
            checks[i].outcome,
        )
}

/// The failure that a failed sign-in is reported with: a used state token
/// and an account that is already linked are reported as they are, every
/// other failure as a failed authentication with the failure's message as
/// the reason.
pub open spec fn reported_failure(e: AccountsErrorView) -> AccountsErrorView {
    match e {
        AccountsErrorView::InvalidState => e,
        AccountsErrorView::AccountAlreadyExists => e,
        _ => AccountsErrorView::AuthenticationFailed { reason: message_of(e) },
    }
}

/// The failure that a failed sign-in is reported with.
pub fn report_failure(e: AccountsError) -> (r: AccountsError)
    ensures
        r@ == reported_failure(e@),
{
    match e {
        AccountsError::InvalidState => e,
        AccountsError::AccountAlreadyExists => e,
        _ => AccountsError::AuthenticationFailed { reason: e.message() },
    }
}

/// The notification that follows the end of a sign-in: an added account is
/// announced under its identifier; an account that is already linked is
/// announced as such; no other failure is announced.
pub open spec fn notification_after_sign_in(r: Result<String, AccountsError>) -> Option<
    NotificationView,
> {
    match r {
        Ok(id) => Some(NotificationView::AccountAdded(id@)),
        Err(e) => if e@ is AccountAlreadyExists {
            Some(NotificationView::AccountAlreadyExists)
        } else {
            None
        },
    }
}

/// The notification that follows the end of a sign-in.
pub fn sign_in_notification(r: &Result<String, AccountsError>) -> (n: Option<Notification>)
    ensures
        match n {
            Some(x) => notification_after_sign_in(*r) == Some(x@),
            None => notification_after_sign_in(*r) is None,
        },
{
    match r {
        Ok(id) => Some(Notification::AccountAdded(id.clone())),
        Err(AccountsError::AccountAlreadyExists) => Some(Notification::AccountAlreadyExists),
        Err(_) => None,
    }
}

/// How the removal of an account is reported once the secret store was told
/// to delete the account's secret. The record is gone by then and stays gone:
/// a secret that could not be deleted is reported as a partial removal, which
/// is a failure of its own, and the record is not brought back.
pub fn report_removal(id: &str, secret_deletion: Result<(), AccountsError>) -> (r: Result<
    Notification,
    AccountsError,
>)
    ensures
        match secret_deletion {
            Ok(_) => r matches Ok(n) && n@ == NotificationView::AccountRemoved(id@),
            Err(e) => r matches Err(x) && x@ == AccountsErrorView::AccountNotRemoved(
                partial_removal_detail(id@, message_of(e@)),
            ),
        },
{
    match secret_deletion {
        Ok(_) => Ok(Notification::AccountRemoved(String::from_str(id))),
        Err(e) => {
            let reason = e.message();
            Err(AccountsError::secret_not_removed(id, reason.as_str()))
        },
    }
}

/// How completing a sign-in is reported, given the identifier and the time
/// it was completed with: what is returned, and what the registry and the
/// credential store hold afterwards.
pub open spec fn sign_in_completed(
    configs: Map<Provider, ProviderConfigView>,
    registry: Seq<AccountView>,
    storage: Map<AccountId, CredentialView>,
    provider: Provider,
    grant: TokenGrantView,
    info: UserInfoView,
    id: AccountId,
    now: Timestamp,
    r: Result<String, AccountsError>,
    registry_after: Seq<AccountView>,
    storage_after: Map<AccountId, CredentialView>,
) -> bool {
    match completion_failure(configs, registry, provider, grant, info, id, now) {
        Some(failure) => {
            &&& r matches Err(e)
            &&& e@ == reported_failure(failure)
            &&& registry_after == registry
            &&& storage_after == storage
        },
        None => {
            &&& r matches Ok(text)
            &&& text@ == uuid_text(id.0)
            &&& registry_after == registry.push(new_account(id, provider, info, now))
            &&& storage_after == storage.insert(
                id,
                granted_credential(
                    grant,
                    configs[provider].scopes,
                    expiry_of(now, grant.expires_in).unwrap(),
                ),
            )
        },
    }
}

/// Whether a sign-in was started with the given state token, verifier and
/// time: the address is the provider's authorization address for them, and
/// the sign-in is pending under the state token.
pub open spec fn started_with(
    c: ProviderConfigView,
    pending: Map<Seq<char>, PendingAuthorizationView>,
    provider: Provider,
    state: Seq<char>,
    verifier: Seq<char>,
    now: Timestamp,
    url: Seq<char>,
    pending_after: Map<Seq<char>, PendingAuthorizationView>,
) -> bool {
    &&& verifier_usable(verifier)
    &&& url == start_url(c, provider, state, verifier)
    &&& pending_after == after_start(
        pending,
        PendingAuthorizationView {
            state_token: state,
            provider,
            pkce_verifier: verifier,
            created_at: now,
        },
    )
}

/// How starting a sign-in by a provider's name ends: what is returned, and
/// what is pending afterwards.
pub open spec fn sign_in_started(
    configs: Map<Provider, ProviderConfigView>,
    pending: Map<Seq<char>, PendingAuthorizationView>,
    name: Seq<char>,
    r: Result<String, AccountsError>,
    pending_after: Map<Seq<char>, PendingAuthorizationView>,
) -> bool {
    match provider_of_lowercase(lowercase(name)) {
        None => {
            &&& r matches Err(e)
            &&& e@ == AccountsErrorView::InvalidProvider(name)
            &&& pending_after == pending
        },
        Some(p) => if configs.contains_key(p) && config_usable(configs[p]) {
            &&& r matches Ok(url)
            &&& exists|state: Seq<char>, verifier: Seq<char>, now: Timestamp| #[trigger]
                started_with(configs[p], pending, p, state, verifier, now, url@, pending_after)
        } else {
            &&& r matches Err(e)
            &&& e@ is AuthenticationFailed
            &&& pending_after == pending
        },
    }
}

/// How removing the account with an identifier text ends: what is returned,
/// and what the registry and the credential store hold afterwards.
pub open spec fn removal_ended(
    registry: Seq<AccountView>,
    storage: Map<AccountId, CredentialView>,
    id: Seq<char>,
    r: Result<Notification, AccountsError>,
    registry_after: Seq<AccountView>,
    storage_after: Map<AccountId, CredentialView>,
) -> bool {
    match uuid_of_text(id) {
        None => {
            &&& r matches Err(e)
            &&& e@ is InvalidArguments
            &&& registry_after == registry
            &&& storage_after == storage
        },
        Some(v) => if has_id(registry, AccountId(v)) {
            &&& r matches Ok(n)
            &&& n@ == NotificationView::AccountRemoved(id)
            &&& registry_after == after_remove(registry, AccountId(v))
            &&& storage_after == storage.remove(AccountId(v))
        } else {
            &&& r matches Err(e)
            &&& e@ == AccountsErrorView::AccountNotFound(id)
            &&& registry_after == registry
            &&& storage_after == storage
        },
    }
}

/// How setting the enabled flag of the account with an identifier text ends:
/// what is returned, and what the registry holds afterwards.
pub open spec fn flag_set(
    registry: Seq<AccountView>,
    id: Seq<char>,
    enabled: bool,
    r: Result<Notification, AccountsError>,
    registry_after: Seq<AccountView>,
) -> bool {
    match uuid_of_text(id) {
        None => {
            &&& r matches Err(e)
            &&& e@ is InvalidArguments
            &&& registry_after == registry
        },
        Some(v) => if has_id(registry, AccountId(v)) {
            &&& r matches Ok(n)
            &&& n@ == NotificationView::AccountChanged(id)
            &&& registry_after == after_enable(registry, AccountId(v), enabled)
        } else {
            &&& r matches Err(e)
            &&& e@ == AccountsErrorView::AccountNotFound(id)
            &&& registry_after == registry
        },
    }
}

/// How setting a capability switch of the account with an identifier text
/// ends: what is returned, and what the registry holds afterwards. The
/// account is looked up before the capability's name is read.
pub open spec fn switch_set(
    registry: Seq<AccountView>,
    id: Seq<char>,
    service: Seq<char>,
    enabled: bool,
    r: Result<(Notification, ServiceAction), AccountsError>,
    registry_after: Seq<AccountView>,
) -> bool {
    match uuid_of_text(id) {
        None => {
            &&& r matches Err(e)
            &&& e@ is InvalidArguments
            &&& registry_after == registry
        },
        Some(v) => if !has_id(registry, AccountId(v)) {
            &&& r matches Err(e)
            &&& e@ == AccountsErrorView::AccountNotFound(id)
            &&& registry_after == registry
        } else {
            match capability_of_lowercase(lowercase(service)) {
                None => {
                    &&& r matches Err(e)
                    &&& e@ == AccountsErrorView::InvalidService(service)
                    &&& registry_after == registry
                },
                Some(c) => {
                    &&& r matches Ok(p)
                    &&& p.0@ == NotificationView::AccountChanged(id)
                    &&& p.1@ == action_after_switch(
                        with_capability(registry[index_of(registry, AccountId(v))], c, enabled),
                        c,
                        enabled,
                    )
                    &&& registry_after == after_switch(registry, AccountId(v), c, enabled)
                },
            }
        },
    }
}

/// Whether the credential store holds a secret for every account of the
/// registry.
pub open spec fn every_account_has_secret(
    registry: Seq<AccountView>,
    storage: Map<AccountId, CredentialView>,
) -> bool {
    forall|i: int| 0 <= i < registry.len() ==> storage.contains_key((#[trigger] registry[i]).id)
}

/// If every account has a secret before a sign-in is completed, every
/// account has one afterwards: the new account's credential is in the store
/// when the account is in the registry.
pub proof fn lemma_sign_in_keeps_secrets(
    configs: Map<Provider, ProviderConfigView>,
    registry: Seq<AccountView>,
    storage: Map<AccountId, CredentialView>,
    provider: Provider,
    grant: TokenGrantView,
    info: UserInfoView,
    id: AccountId,
    now: Timestamp,
    r: Result<String, AccountsError>,
    registry_after: Seq<AccountView>,
    storage_after: Map<AccountId, CredentialView>,
)
    requires
        every_account_has_secret(registry, storage),
        sign_in_completed(
            configs,
            registry,
            storage,
            provider,
            grant,
            info,
            id,
            now,
            r,
            registry_after,
            storage_after,
        ),
    ensures
        every_account_has_secret(registry_after, storage_after),
        r is Ok ==> find(registry_after, id) is Some && storage_after.contains_key(id),
{
    if r is Ok {
        let added = new_account(id, provider, info, now);
        assert(registry_after == registry.push(added));
        assert(registry_after[registry.len() as int].id == id);
        assert forall|i: int| 0 <= i < registry_after.len() implies storage_after.contains_key(
            (#[trigger] registry_after[i]).id,
        ) by {
            if i < registry.len() {
                assert(registry_after[i] == registry[i]);
            }
        }
    }
}

/// If every account has a secret, every account has one after an account is
/// removed together with its secret, after an enabled flag or a capability
/// switch is set, and after a credential is refreshed.
pub proof fn lemma_changes_keep_secrets(
    registry: Seq<AccountView>,
    storage: Map<AccountId, CredentialView>,
    id: AccountId,
    c: Capability,
    enabled: bool,
    credential: CredentialView,
)
    requires
        crate::config::registry_valid(registry),
        every_account_has_secret(registry, storage),
    ensures
        every_account_has_secret(after_remove(registry, id), storage.remove(id)),
        every_account_has_secret(after_enable(registry, id, enabled), storage),
        every_account_has_secret(after_switch(registry, id, c, enabled), storage),
        every_account_has_secret(registry, storage.insert(id, credential)),
{
    if has_id(registry, id) {
        let k = index_of(registry, id);
        let removed = registry.remove(k);
        assert forall|i: int| 0 <= i < removed.len() implies storage.remove(id).contains_key(
            (#[trigger] removed[i]).id,
        ) by {
            let from = if i < k {
                i
            } else {
                i + 1
            };
            assert(removed[i] == registry[from]);
            crate::config::lemma_index_unique(registry, from);
        }
        let flagged = after_enable(registry, id, enabled);
        assert forall|i: int| 0 <= i < flagged.len() implies storage.contains_key(
            (#[trigger] flagged[i]).id,
        ) by {
            assert(flagged[i].id == registry[i].id);
        }
        let switched = after_switch(registry, id, c, enabled);
        assert forall|i: int| 0 <= i < switched.len() implies storage.contains_key(
            (#[trigger] switched[i]).id,
        ) by {
            assert(switched[i].id == registry[i].id);
        }
    } else {
        assert forall|i: int| 0 <= i < registry.len() implies storage.remove(id).contains_key(
            (#[trigger] registry[i]).id,
        ) by {
            if registry[i].id == id {
                assert(has_id(registry, id));
            }
        }
    }
}

/// The account service: the registry of linked accounts and the sign-in
/// engine with its credential store.
#[derive(Debug)]
pub struct AccountsInterface {
    pub auth_manager: AuthManager,
    pub config: AccountsConfig,
}

impl AccountsInterface {
    /// A service over the given providers' settings and the given accounts.
    pub fn new(configs: ProviderRegistry, accounts: AccountsConfig) -> (r: AccountsInterface)
        ensures
            r.config@ == accounts@,
            r.auth_manager.configs@ == configs@,
            r.auth_manager.pending@ == Map::<Seq<char>, PendingAuthorizationView>::empty(),
            r.auth_manager.storage@ == Map::<AccountId, CredentialView>::empty(),
    {
        AccountsInterface { auth_manager: AuthManager::new(configs), config: accounts }
    }

    /// Every account, as records for the bus, in the order of the registry.
    pub fn list_accounts(&self) -> (r: Vec<DbusAccount>)
        ensures
            r@.len() == self.config@.len(),
            forall|i: int| 0 <= i < r@.len() ==> (#[trigger] r@[i])@ == dbus_of_account(self.config@[i]),
    {
        let accounts = self.config.list();
        let mut out: Vec<DbusAccount> = Vec::new();
        let mut i: usize = 0;
        while i < accounts.len()
            invariant
                i <= accounts.len(),
                out.len() == i,
                account_views(accounts@) == self.config@,
                forall|j: int| 0 <= j < i ==> (#[trigger] out@[j])@ == dbus_of_account(self.config@[j]),
            decreases accounts.len() - i,
        {
            assert(account_views(accounts@)[i as int] == accounts[i as int]@);
            out.push(DbusAccount::from_account(&accounts[i]));
            i += 1;
        }
        assert(account_views(accounts@).len() == accounts@.len());
        out
    }

    /// Reads an identifier and looks its account up.
    fn lookup(&self, id: &str) -> (r: Result<(AccountId, Account), AccountsError>)
        ensures
            match uuid_of_text(id@) {
                None => r matches Err(e) && e@ is InvalidArguments,
                Some(v) => match find(self.config@, AccountId(v)) {
                    None => r matches Err(e) && e@ == AccountsErrorView::AccountNotFound(id@),
                    Some(a) => r matches Ok(p) && p.0 == AccountId(v) && p.1@ == a && a.id == p.0
                        && has_id(self.config@, p.0),
                },
            },
            r is Ok ==> crate::config::registry_valid(self.config@),
    {
        let account_id = match AccountId::parse(id) {
            Ok(v) => v,
            Err(e) => {
                return Err(e);
            },
        };
        match self.config.get_account(&account_id) {
            Some(account) => {
                proof {
                    let s = self.config@;
                    assert(s[index_of(s, account_id)].id == account_id);
                }
                Ok((account_id, account))
            },
            None => Err(AccountsError::AccountNotFound(String::from_str(id))),
        }
    }

    /// The account with the identifier, as a record for the bus. A text that
    /// is no identifier is refused as an invalid argument; an identifier
    /// without account fails with `AccountNotFound`.
    pub fn get_account(&self, id: &str) -> (r: Result<DbusAccount, AccountsError>)
        ensures
            match uuid_of_text(id@) {
                None => r matches Err(e) && e@ is InvalidArguments,
                Some(v) => match find(self.config@, AccountId(v)) {
                    None => r matches Err(e) && e@ == AccountsErrorView::AccountNotFound(id@),
                    Some(a) => r matches Ok(d) && d@ == dbus_of_account(a),
                },
            },
    {
        match self.lookup(id) {
            Ok(found) => Ok(DbusAccount::from_account(&found.1)),
            Err(e) => Err(e),
        }
    }

    /// Starts a sign-in with the provider of the given name and returns the
    /// address to open in a browser. A name of no provider fails with
    /// `InvalidProvider`; a provider without usable settings fails the
    /// authentication. After a failure nothing is pending that was not
    /// pending before.
    pub fn start_authentication(&mut self, provider_name: &str) -> (r: Result<
        String,
        AccountsError,
    >)
        ensures
            sign_in_started(
                old(self).auth_manager.configs@,
                old(self).auth_manager.pending@,
                provider_name@,
                r,
                final(self).auth_manager.pending@,
            ),
            final(self).config@ == old(self).config@,
            final(self).auth_manager.configs@ == old(self).auth_manager.configs@,
            final(self).auth_manager.storage@ == old(self).auth_manager.storage@,
    {
        let provider = match Provider::from_str(provider_name) {
            Some(p) => p,
            None => {
                return Err(AccountsError::InvalidProvider(String::from_str(provider_name)));
            },
        };
        let r = match self.auth_manager.start_auth_flow(provider) {
            Ok(url) => Ok(url),
            Err(e) => Err(AccountsError::AuthenticationFailed { reason: e.message() }),
        };
        proof {
            let configs = old(self).auth_manager.configs@;
            let pending = old(self).auth_manager.pending@;
            if configs.contains_key(provider) && config_usable(configs[provider]) {
                let (state, verifier, now) = choose|
                    state: Seq<char>,
                    verifier: Seq<char>,
                    now: Timestamp,
                |
                    verifier_usable(verifier) && #[trigger] crate::auth::started(
                        configs,
                        pending,
                        provider,
                        state,
                        verifier,
                        now,
                        r,
                        self.auth_manager.pending@,
                    );
                assert(started_with(
                    configs[provider],
                    pending,
                    provider,
                    state,
                    verifier,
                    now,
                    r->Ok_0@,
                    self.auth_manager.pending@,
                ));
            }
        }
        r
    }

    /// Redeems the state token that a redirect brought back and says what to
    /// exchange at the token endpoint. The token cannot be redeemed again.
    /// Fails with `InvalidState`, and changes nothing, if no sign-in is
    /// pending under the token.
    pub fn begin_authentication(&mut self, csrf_token: &str, authorization_code: &str) -> (r:
        Result<CodeExchange, AccountsError>)
        ensures
            redeemed_as(
                old(self).auth_manager.configs@,
                old(self).auth_manager.pending@,
                csrf_token@,
                authorization_code@,
                r,
            ),
            final(self).auth_manager.pending@ == after_redeem(
                old(self).auth_manager.pending@,
                csrf_token@,
            ),
            final(self).config@ == old(self).config@,
            final(self).auth_manager.configs@ == old(self).auth_manager.configs@,
            final(self).auth_manager.storage@ == old(self).auth_manager.storage@,
    {
        self.auth_manager.redeem_state(csrf_token, String::from_str(authorization_code))
    }

    /// Completes a sign-in with what the token endpoint granted and what the
    /// identity endpoint reported: the new account, under a fresh random
    /// identifier, enters the registry, its credential enters the store, and
    /// the identifier's text is returned. Fails with `AccountAlreadyExists`
    /// if an account of the provider under the reported user name is linked;
    /// registry and store stay as they were after every failure.
    pub fn complete_authentication(
        &mut self,
        provider: Provider,
        grant: TokenGrant,
        user_info: UserInfo,
    ) -> (r: Result<String, AccountsError>)
        ensures
            exists|id: AccountId, now: Timestamp| #[trigger]
                sign_in_completed(
                    old(self).auth_manager.configs@,
                    old(self).config@,
                    old(self).auth_manager.storage@,
                    provider,
                    grant@,
                    user_info@,
                    id,
                    now,
                    r,
                    final(self).config@,
                    final(self).auth_manager.storage@,
                ),
            crate::config::has_identity(old(self).config@, provider, user_info@.username)
                && old(self).auth_manager.configs@.contains_key(provider) && grant@.expires_in
                is None ==> (r matches Err(e) && e@ == AccountsErrorView::AccountAlreadyExists),
            r is Err ==> final(self).config@ == old(self).config@,
            r is Err ==> final(self).auth_manager.storage@ == old(self).auth_manager.storage@,
            final(self).auth_manager.configs@ == old(self).auth_manager.configs@,
            final(self).auth_manager.pending@ == old(self).auth_manager.pending@,
    {
        let id = AccountId::generate();
        let now = crate::outside::utc_now();
        let r = self.complete_authentication_with(provider, grant, user_info, id, now);
        assert(sign_in_completed(
            old(self).auth_manager.configs@,
            old(self).config@,
            old(self).auth_manager.storage@,
            provider,
            grant@,
            user_info@,
            id,
            now,
            r,
            self.config@,
            self.auth_manager.storage@,
        ));
        r
    }

    /// Completes a sign-in under a given identifier at a given time.
    pub fn complete_authentication_with(
        &mut self,
        provider: Provider,
        grant: TokenGrant,
        user_info: UserInfo,
        id: AccountId,
        now: Timestamp,
    ) -> (r: Result<String, AccountsError>)
        ensures
            sign_in_completed(
                old(self).auth_manager.configs@,
                old(self).config@,
                old(self).auth_manager.storage@,
                provider,
                grant@,
                user_info@,
                id,
                now,
                r,
                final(self).config@,
                final(self).auth_manager.storage@,
            ),
            final(self).auth_manager.configs@ == old(self).auth_manager.configs@,
            final(self).auth_manager.pending@ == old(self).auth_manager.pending@,
    {
        let account = match self.auth_manager.complete_auth_flow_with(
            &self.config,
            provider,
            grant,
            user_info,
            id,
            now,
        ) {
            Ok(account) => account,
            Err(e) => {
                return Err(report_failure(e));
            },
        };
        let text = account.id.to_string();
        match self.config.add_account(account) {
            Ok(_) => Ok(text),
            Err(e) => Err(e),
        }
    }

    /// Removes the account with the identifier from the registry and deletes
    /// its credential from the store. Afterwards the account is not found
    /// and the store holds no secret for it. Fails with `AccountNotFound`,
    /// and changes nothing, if there is no such account.
    pub fn remove_account(&mut self, id: &str) -> (r: Result<Notification, AccountsError>)
        ensures
            removal_ended(
                old(self).config@,
                old(self).auth_manager.storage@,
                id@,
                r,
                final(self).config@,
                final(self).auth_manager.storage@,
            ),
            r is Ok ==> find(final(self).config@, AccountId(uuid_of_text(id@).unwrap())) is None
                && !final(self).auth_manager.storage@.contains_key(
                AccountId(uuid_of_text(id@).unwrap()),
            ),
            final(self).auth_manager.configs@ == old(self).auth_manager.configs@,
            final(self).auth_manager.pending@ == old(self).auth_manager.pending@,
    {
        let found = match self.lookup(id) {
            Ok(found) => found,
            Err(e) => {
                return Err(e);
            },
        };
        let account_id = found.0;
        proof {
            crate::config::lemma_remove_then_get(self.config@, account_id);
        }
        match self.config.remove_account(&account_id) {
            Ok(_) => {},
            Err(e) => {
                return Err(e);
            },
        }
        self.auth_manager.delete_credentials(&account_id);
        Ok(Notification::AccountRemoved(String::from_str(id)))
    }

    /// Sets the enabled flag of the account with the identifier. No
    /// capability switch changes. Fails with `AccountNotFound`, and changes
    /// nothing, if there is no such account.
    pub fn set_account_enabled(&mut self, id: &str, enabled: bool) -> (r: Result<
        Notification,
        AccountsError,
    >)
        ensures
            flag_set(old(self).config@, id@, enabled, r, final(self).config@),
            final(self).auth_manager.configs@ == old(self).auth_manager.configs@,
            final(self).auth_manager.pending@ == old(self).auth_manager.pending@,
            final(self).auth_manager.storage@ == old(self).auth_manager.storage@,
    {
        let found = match self.lookup(id) {
            Ok(found) => found,
            Err(e) => {
                return Err(e);
            },
        };
        match self.config.set_enabled(&found.0, enabled) {
            Ok(_) => Ok(Notification::AccountChanged(String::from_str(id))),
            Err(e) => Err(e),
        }
    }

    /// Sets one capability switch of the account with the identifier, and
    /// says what to do with the service behind the capability. The enabled
    /// flag does not change. Fails with `AccountNotFound` if there is no
    /// such account and with `InvalidService` if the name is that of no
    /// capability, and changes nothing then.
    pub fn set_service_enabled(&mut self, id: &str, service: &str, enabled: bool) -> (r: Result<
        (Notification, ServiceAction),
        AccountsError,
    >)
        ensures
            switch_set(old(self).config@, id@, service@, enabled, r, final(self).config@),
            final(self).auth_manager.configs@ == old(self).auth_manager.configs@,
            final(self).auth_manager.pending@ == old(self).auth_manager.pending@,
            final(self).auth_manager.storage@ == old(self).auth_manager.storage@,
    {
        let found = match self.lookup(id) {
            Ok(found) => found,
            Err(e) => {
                return Err(e);
            },
        };
        let capability = match Capability::from_str(String::from_str(service)) {
            Some(c) => c,
            None => {
                return Err(AccountsError::InvalidService(String::from_str(service)));
            },
        };
        let mut account = found.1;
        account.capabilities.insert(capability, enabled);
        match self.config.set_capability(&found.0, capability, enabled) {
            Ok(_) => {},
            Err(e) => {
                return Err(e);
            },
        }
        let action = match ServiceFactory::create_service(&account, &capability) {
            Some(s) => if enabled {
                ServiceAction::Add(s)
            } else {
                ServiceAction::Remove(s)
            },
            None => ServiceAction::Nothing,
        };
        Ok((Notification::AccountChanged(String::from_str(id)), action))
    }

    /// Checks now whether the credential of the account with the identifier
    /// must be refreshed. `Ok(None)` says that nothing is to be done;
    /// `Ok(Some(..))` says what to exchange at the token endpoint. Registry
    /// and store are only read.
    pub fn ensure_credentials(&self, id: &str) -> (r: Result<Option<RefreshRequest>, AccountsError>)
        ensures
            match uuid_of_text(id@) {
                None => r matches Err(e) && e@ is InvalidArguments,
                Some(v) => match find(self.config@, AccountId(v)) {
                    None => r matches Err(e) && e@ == AccountsErrorView::AccountNotFound(id@),
                    Some(a) => exists|now: Timestamp| #[trigger]
                        checked(
                            self.auth_manager.configs@,
                            self.auth_manager.storage@,
                            AccountId(v),
                            a.provider,
                            now,
                            r,
                        ),
                },
            },
    {
        let found = match self.lookup(id) {
            Ok(found) => found,
            Err(e) => {
                return Err(e);
            },
        };
        self.auth_manager.ensure_credentials(&found.0, found.1.provider)
    }

    /// Checks the credential of every account now, each on its own: a
    /// failure of one account's check does not end the checks of the others.
    pub fn ensure_all_credentials(&self) -> (r: Vec<CredentialCheck>)
        ensures
            exists|now: Timestamp| #[trigger]
                all_checked(
                    self.auth_manager.configs@,
                    self.auth_manager.storage@,
                    self.config@,
                    now,
                    r@,
                ),
    {
        let now = crate::outside::utc_now();
        let r = self.ensure_all_credentials_at(&now);
        assert(all_checked(
            self.auth_manager.configs@,
            self.auth_manager.storage@,
            self.config@,
            now,
            r@,
        ));
        r
    }

    /// Checks the credential of every account at a given time, in the order
    /// of the registry.
    pub fn ensure_all_credentials_at(&self, now: &Timestamp) -> (r: Vec<CredentialCheck>)
        ensures
            all_checked(
                self.auth_manager.configs@,
                self.auth_manager.storage@,
                self.config@,
                *now,
                r@,
            ),
    {
        let accounts = self.config.list();
        let mut out: Vec<CredentialCheck> = Vec::new();
        let mut i: usize = 0;
        while i < accounts.len()
            invariant
                i <= accounts.len(),
                out.len() == i,
                account_views(accounts@) == self.config@,
                forall|j: int|
                    0 <= j < i ==> (#[trigger] out@[j]).account_id == self.config@[j].id
                        && checked(
                        self.auth_manager.configs@,
                        self.auth_manager.storage@,
                        self.config@[j].id,
                        self.config@[j].provider,
                        *now,
                        out@[j].outcome,
                    ),
            decreases accounts.len() - i,
        {
            assert(account_views(accounts@)[i as int] == accounts[i as int]@);
            let outcome = self.auth_manager.ensure_credentials_at(
                &accounts[i].id,
                accounts[i].provider,
                now,
            );
            out.push(CredentialCheck { account_id: accounts[i].id, outcome });
            i += 1;
        }
        assert(account_views(accounts@).len() == accounts@.len());
        out
    }

    /// The access token of the account with the identifier, for use now: the
    /// token as it is in the store if the credential has not expired,
    /// otherwise what to exchange at the token endpoint first. Registry and
    /// store are only read.
    pub fn get_access_token(&self, id: &str) -> (r: Result<AccessTokenStep, AccountsError>)
        ensures
            match uuid_of_text(id@) {
                None => r matches Err(e) && e@ is InvalidArguments,
                Some(v) => match find(self.config@, AccountId(v)) {
                    None => r matches Err(e) && e@ == AccountsErrorView::AccountNotFound(id@),
                    Some(a) => exists|now: Timestamp| #[trigger]
                        token_step(
                            self.auth_manager.configs@,
                            self.auth_manager.storage@,
                            AccountId(v),
                            a.provider,
                            now,
                            r,
                        ),
                },
            },
    {
        let now = crate::outside::utc_now();
        let r = self.get_access_token_at(id, &now);
        proof {
            if let Some(v) = uuid_of_text(id@) {
                if let Some(a) = find(self.config@, AccountId(v)) {
                    assert(token_step(
                        self.auth_manager.configs@,
                        self.auth_manager.storage@,
                        AccountId(v),
                        a.provider,
                        now,
                        r,
                    ));
                }
            }
        }
        r
    }

    /// The access token of the account with the identifier, for use at a
    /// given time. Fails with `AccountNotFound` if there is no such account,
    /// with `StorageError` if the store holds no credential for it, and with
    /// `TokenExpired` if the credential has expired and there is no refresh
    /// token.
    pub fn get_access_token_at(&self, id: &str, now: &Timestamp) -> (r: Result<
        AccessTokenStep,
        AccountsError,
    >)
        ensures
            match uuid_of_text(id@) {
                None => r matches Err(e) && e@ is InvalidArguments,
                Some(v) => match find(self.config@, AccountId(v)) {
                    None => r matches Err(e) && e@ == AccountsErrorView::AccountNotFound(id@),
                    Some(a) => token_step(
                        self.auth_manager.configs@,
                        self.auth_manager.storage@,
                        AccountId(v),
                        a.provider,
                        *now,
                        r,
                    ),
                },
            },
    {
        let found = match self.lookup(id) {
            Ok(found) => found,
            Err(e) => {
                return Err(e);
            },
        };
        match self.auth_manager.ensure_credentials_at(&found.0, found.1.provider, now) {
            Err(e) => Err(e),
            Ok(Some(request)) => Ok(AccessTokenStep::Refresh(request)),
            Ok(None) => match self.auth_manager.get_account_credentials(&found.0) {
                Ok(credential) => Ok(AccessTokenStep::Token(credential.access_token)),
                Err(e) => Err(e),
            },
        }
    }

    /// The refresh token of the account with the identifier, as it is in the
    /// store; the empty text if the credential has none.
    pub fn get_refresh_token(&self, id: &str) -> (r: Result<String, AccountsError>)
        ensures
            match uuid_of_text(id@) {
                None => r matches Err(e) && e@ is InvalidArguments,
                Some(v) => if !has_id(self.config@, AccountId(v)) {
                    r matches Err(e) && e@ == AccountsErrorView::AccountNotFound(id@)
                } else if !self.auth_manager.storage@.contains_key(AccountId(v)) {
                    r matches Err(e) && e@ == AccountsErrorView::StorageError(
                        missing_credentials_message(AccountId(v)),
                    )
                } else {
                    r matches Ok(token) && token@ == match self.auth_manager.storage@[AccountId(
                        v,
                    )].refresh_token {
                        Some(t) => t,
                        None => Seq::<char>::empty(),
                    }
                },
            },
    {
        let found = match self.lookup(id) {
            Ok(found) => found,
            Err(e) => {
                return Err(e);
            },
        };
        match self.auth_manager.get_account_credentials(&found.0) {
            Ok(credential) => match credential.refresh_token {
                Some(t) => Ok(t),
                None => Ok(String::new()),
            },
            Err(e) => Err(e),
        }
    }
}

} // verus!
