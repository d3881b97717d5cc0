//! The sign-in engine: it starts the handshake with a provider, redeems the
//! state token that the redirect brings back, turns what the token endpoint
//! granted into an account with a stored credential, and decides when a
//! credential must be refreshed. The engine never talks to the network: it
//! says what to ask for, and is told what came back.

use vstd::prelude::*;
use vstd::string::{StringExecFns, StringSliceAdditionalSpecFns};
use crate::account::{Account, AccountId, AccountView, UserInfo, UserInfoView};
use crate::config::{has_id, has_identity, AccountsConfig};
use crate::credential::{
    expiry, expiry_of, Credential, CredentialView, TokenGrant, TokenGrantView,
};
use crate::error::{AccountsError, AccountsErrorView};
use crate::outside::{
    authorization_url, build_authorization_url, check_url, random_pkce_verifier,
    random_state_token, url_error_text, url_parses, utc_now, uuid_text,
};
use crate::pending::{
    after_evict, after_redeem, after_start, redeemed, PendingAuthorization,
    PendingAuthorizationView, PendingTable,
};
use crate::provider::{Provider, ProviderConfig, ProviderConfigView, ProviderRegistry};
use crate::storage::{missing_credentials_message, CredentialStorage};
use crate::text::{byte_len, clone_opt_text, clone_texts};
use crate::time::Timestamp;

verus! {

/// Whether the `oauth2` client can be built from the settings: each of the
/// three addresses parses.
pub open spec fn config_usable(c: ProviderConfigView) -> bool {
    url_parses(c.auth_url) && url_parses(c.token_url) && url_parses(c.redirect_uri)
}

/// Whether a PKCE verifier has a length that the standard admits: 43 to 128
/// bytes.
pub open spec fn verifier_usable(verifier: Seq<char>) -> bool {
    43 <= byte_len(verifier) <= 128
}

/// The authorization address for a sign-in with a provider: the provider's
/// settings, the state token, the challenge of the verifier, the scopes and
/// the provider's extra parameters.
pub open spec fn start_url(
    c: ProviderConfigView,
    provider: Provider,
    state: Seq<char>,
    verifier: Seq<char>,
) -> Seq<char> {
    authorization_url(
        c.auth_url,
        c.client_id,
        c.redirect_uri,
        c.scopes,
        provider.extra_names(),
        provider.extra_values(),
        state,
        verifier,
    )
}

/// How starting a sign-in ends, given the state token, the verifier and the
/// time it was started with: what is returned, and what is pending afterwards.
pub open spec fn started(
    configs: Map<Provider, ProviderConfigView>,
    pending: Map<Seq<char>, PendingAuthorizationView>,
    provider: Provider,
    state: Seq<char>,
    verifier: Seq<char>,
    now: Timestamp,
    r: Result<String, AccountsError>,
    pending_after: Map<Seq<char>, PendingAuthorizationView>,
) -> bool {
    if !configs.contains_key(provider) {
        &&& r matches Err(e)
        &&& e@ == AccountsErrorView::InvalidProviderConfig
        &&& pending_after == pending
    } else if !config_usable(configs[provider]) {
        &&& r matches Err(e)
        &&& e@ is UrlParse
        &&& pending_after == pending
    } else if !verifier_usable(verifier) {
        &&& r matches Err(e)
        &&& e@ is InvalidArguments
        &&& pending_after == pending
    } else {
        &&& r matches Ok(url)
        &&& url@ == start_url(configs[provider], provider, state, verifier)
        &&& pending_after == after_start(
            pending,
            PendingAuthorizationView {
                state_token: state,
                provider,
                pkce_verifier: verifier,
                created_at: now,
            },
        )
    }
}

/// What a token exchange needs: the provider and its settings, the
/// authorization code that the redirect brought, and the PKCE verifier of the
/// sign-in.
#[derive(Debug)]
pub struct CodeExchange {
    pub provider: Provider,
    pub config: ProviderConfig,
    pub authorization_code: String,
    pub pkce_verifier: String,
}

/// What a token exchange holds.
pub struct CodeExchangeView {
    pub provider: Provider,
    pub config: ProviderConfigView,
    pub authorization_code: Seq<char>,
    pub pkce_verifier: Seq<char>,
}

impl View for CodeExchange {
    type V = CodeExchangeView;

    open spec fn view(&self) -> CodeExchangeView {
        CodeExchangeView {
            provider: self.provider,
            config: self.config@,
            authorization_code: self.authorization_code@,
            pkce_verifier: self.pkce_verifier@,
        }
    }
}

/// How redeeming a state token ends: what is returned.
pub open spec fn redeemed_as(
    configs: Map<Provider, ProviderConfigView>,
    pending: Map<Seq<char>, PendingAuthorizationView>,
    token: Seq<char>,
    code: Seq<char>,
    r: Result<CodeExchange, AccountsError>,
) -> bool {
    match redeemed(pending, token) {
        None => r matches Err(e) && e@ == AccountsErrorView::InvalidState,
        Some(entry) => if !configs.contains_key(entry.provider) {
            r matches Err(e) && e@ == AccountsErrorView::InvalidProviderConfig
        } else if !config_usable(configs[entry.provider]) {
            r matches Err(e) && e@ is UrlParse
        } else {
            r matches Ok(x) && x@ == (CodeExchangeView {
                provider: entry.provider,
                config: configs[entry.provider],
                authorization_code: code,
                pkce_verifier: entry.pkce_verifier,
            })
        },
    }
}

/// The record of an account created at `now` for an identity: enabled, used
/// last at `now`, with the switches that the provider's accounts start with.
pub open spec fn new_account(
    id: AccountId,
    provider: Provider,
    info: UserInfoView,
    now: Timestamp,
) -> AccountView {
    AccountView {
        id,
        provider,
        display_name: info.display_name,
        username: info.username,
        email: info.email,
        enabled: true,
        created_at: now,
        last_used: Some(now),
        capabilities: provider.initial_switches(),
    }
}

/// The credential that a grant of the token endpoint stands for.
pub open spec fn granted_credential(
    grant: TokenGrantView,
    scopes: Seq<Seq<char>>,
    expires_at: Option<Timestamp>,
) -> CredentialView {
    CredentialView {
        access_token: grant.access_token,
        refresh_token: grant.refresh_token,
        expires_at,
        scope: scopes,
        token_type: "Bearer"@,
    }
}

/// The credential after a refresh: the access token and the expiry time are
/// new; the refresh token is new if the provider sent one, else as before;
/// scope and token type are as before.
pub open spec fn refreshed_credential(
    before: CredentialView,
    grant: TokenGrantView,
    expires_at: Option<Timestamp>,
) -> CredentialView {
    CredentialView {
        access_token: grant.access_token,
        refresh_token: if grant.refresh_token is Some {
            grant.refresh_token
        } else {
            before.refresh_token
        },
        expires_at,
        ..before
    }
}

/// Why a granted sign-in cannot become an account, if anything stands
/// against it.
pub open spec fn completion_failure(
    configs: Map<Provider, ProviderConfigView>,
    registry: Seq<AccountView>,
    provider: Provider,
    grant: TokenGrantView,
    info: UserInfoView,
    id: AccountId,
    now: Timestamp,
) -> Option<AccountsErrorView> {
    if !configs.contains_key(provider) {
        Some(AccountsErrorView::InvalidProviderConfig)
    } else if expiry_of(now, grant.expires_in) is None {
        Some(AccountsErrorView::AuthenticationFailed { reason: "Token lifetime is out of range"@ })
    } else if has_identity(registry, provider, info.username) || has_id(registry, id) {
        Some(AccountsErrorView::AccountAlreadyExists)
    } else {
        None
    }
}

/// How completing a sign-in ends, given the identifier and the time it was
/// completed with: what is returned, and what the credential store holds
/// afterwards.
pub open spec fn completed(
    configs: Map<Provider, ProviderConfigView>,
    registry: Seq<AccountView>,
    storage: Map<AccountId, CredentialView>,
    provider: Provider,
    grant: TokenGrantView,
    info: UserInfoView,
    id: AccountId,
    now: Timestamp,
    r: Result<Account, AccountsError>,
    storage_after: Map<AccountId, CredentialView>,
) -> bool {
    match completion_failure(configs, registry, provider, grant, info, id, now) {
        Some(failure) => {
            &&& r matches Err(e)
            &&& e@ == failure
            &&& storage_after == storage
        },
        None => {
            &&& r matches Ok(account)
            &&& account@ == new_account(id, provider, info, now)
            &&& storage_after == storage.insert(
                id,
                granted_credential(
                    grant,
                    configs[provider].scopes,
                    expiry_of(now, grant.expires_in).unwrap(),
                ),
            )
        },
    }
}

/// A granted sign-in for an identity that is already linked is refused with
/// `AccountAlreadyExists`, whatever the new identifier, and the credential
/// store stays as it was; the registry, which a sign-in only reads, still
/// holds exactly one account of that provider under that user name.
pub proof fn lemma_linked_identity_is_refused(
    configs: Map<Provider, ProviderConfigView>,
    registry: Seq<AccountView>,
    storage: Map<AccountId, CredentialView>,
    provider: Provider,
    grant: TokenGrantView,
    info: UserInfoView,
    id: AccountId,
    now: Timestamp,
    r: Result<Account, AccountsError>,
    storage_after: Map<AccountId, CredentialView>,
)
    requires
        crate::config::registry_valid(registry),
        has_identity(registry, provider, info.username),
        configs.contains_key(provider),
        expiry_of(now, grant.expires_in) is Some,
        completed(configs, registry, storage, provider, grant, info, id, now, r, storage_after),
    ensures
        r matches Err(e) && e@ == AccountsErrorView::AccountAlreadyExists,
        storage_after == storage,
        forall|i: int, j: int|
            0 <= i < registry.len() && 0 <= j < registry.len() && (#[trigger] registry[i]).provider
                == provider && registry[i].username == info.username && (
            #[trigger] registry[j]).provider == provider && registry[j].username == info.username
                ==> i == j,
{
    let probe = new_account(id, provider, info, now);
    crate::config::lemma_duplicate_identity_refused(registry, probe);
}

/// What a refresh of an access token needs: the account, its provider's
/// settings and the refresh token.
#[derive(Debug)]
pub struct RefreshRequest {
    pub account_id: AccountId,
    pub config: ProviderConfig,
    pub refresh_token: String,
}

/// What a refresh request holds.
pub struct RefreshRequestView {
    pub account_id: AccountId,
    pub config: ProviderConfigView,
    pub refresh_token: Seq<char>,
}

impl View for RefreshRequest {
    type V = RefreshRequestView;

    open spec fn view(&self) -> RefreshRequestView {
        RefreshRequestView {
            account_id: self.account_id,
            config: self.config@,
            refresh_token: self.refresh_token@,
        }
    }
}

/// What the check of a credential at `now` decides.
pub enum RefreshDecision {
    /// The store holds no credential for the account.
    Missing,
    /// The credential has not expired: nothing is to be done.
    Fresh,
    /// The credential has expired and the provider has no settings.
    NoSettings,
    /// The credential has expired and there is no refresh token.
    Expired,
    /// The credential has expired and the provider's addresses do not parse.
    BadSettings,
    /// The credential has expired and is to be refreshed with this request.
    Refresh(RefreshRequestView),
}

/// What the check of an account's credential at `now` decides.
pub open spec fn refresh_decision(
    configs: Map<Provider, ProviderConfigView>,
    storage: Map<AccountId, CredentialView>,
    id: AccountId,
    provider: Provider,
    now: Timestamp,
) -> RefreshDecision {
    if !storage.contains_key(id) {
        RefreshDecision::Missing
    } else if !storage[id].expired_at(now) {
        RefreshDecision::Fresh
    } else if !configs.contains_key(provider) {
        RefreshDecision::NoSettings
    } else if storage[id].refresh_token is None {
        RefreshDecision::Expired
    } else if !config_usable(configs[provider]) {
        RefreshDecision::BadSettings
    } else {
        RefreshDecision::Refresh(
            RefreshRequestView {
                account_id: id,
                config: configs[provider],
                refresh_token: storage[id].refresh_token.unwrap(),
            },
        )
    }
}

/// How the check of an account's credential ends, given the time of the
/// check.
pub open spec fn checked(
    configs: Map<Provider, ProviderConfigView>,
    storage: Map<AccountId, CredentialView>,
    id: AccountId,
    provider: Provider,
    now: Timestamp,
    r: Result<Option<RefreshRequest>, AccountsError>,
) -> bool {
    match refresh_decision(configs, storage, id, provider, now) {
        RefreshDecision::Missing => r matches Err(e) && e@ == AccountsErrorView::StorageError(
            missing_credentials_message(id),
        ),
        RefreshDecision::Fresh => r matches Ok(None),
        RefreshDecision::NoSettings => r matches Err(e) && e@
            == AccountsErrorView::InvalidProviderConfig,
        RefreshDecision::Expired => r matches Err(e) && e@ == (AccountsErrorView::TokenExpired {
            account_id: uuid_text(id.0),
        }),
        RefreshDecision::BadSettings => r matches Err(e) && e@ is UrlParse,
        RefreshDecision::Refresh(request) => r matches Ok(Some(x)) && x@ == request,
    }
}

/// How applying a refreshed grant ends, given the time of the refresh: what
/// is returned, and what the credential store holds afterwards.
pub open spec fn refreshed(
    storage: Map<AccountId, CredentialView>,
    id: AccountId,
    grant: TokenGrantView,
    now: Timestamp,
    r: Result<(), AccountsError>,
    storage_after: Map<AccountId, CredentialView>,
) -> bool {
    if !storage.contains_key(id) {
        &&& r matches Err(e)
        &&& e@ == AccountsErrorView::StorageError(missing_credentials_message(id))
        &&& storage_after == storage
    } else if expiry_of(now, grant.expires_in) is None {
        &&& r matches Err(e)
        &&& e@ == AccountsErrorView::TokenRefreshFailed(uuid_text(id.0))
        &&& storage_after == storage
    } else {
        &&& r is Ok
        &&& storage_after == storage.insert(
            id,
            refreshed_credential(storage[id], grant, expiry_of(now, grant.expires_in).unwrap()),
        )
    }
}

/// A credential that has not expired at two times of checking is left alone
/// both times: the check asks for no exchange with the token endpoint, and as
/// a check only reads the store, the stored credential is the same before
/// and after.
pub proof fn lemma_fresh_check_repeats(
    configs: Map<Provider, ProviderConfigView>,
    storage: Map<AccountId, CredentialView>,
    id: AccountId,
    provider: Provider,
    first: Timestamp,
    second: Timestamp,
)
    requires
        storage.contains_key(id),
        !storage[id].expired_at(first),
        !storage[id].expired_at(second),
    ensures
        refresh_decision(configs, storage, id, provider, first) == RefreshDecision::Fresh,
        refresh_decision(configs, storage, id, provider, second) == RefreshDecision::Fresh,
{
}

/// A credential that has not expired at some time had not expired at any
/// earlier time.
pub proof fn lemma_fresh_earlier(c: CredentialView, earlier: Timestamp, later: Timestamp)
    requires
        earlier.at_or_before(later),
        !c.expired_at(later),
    ensures
        !c.expired_at(earlier),
{
}

/// After a refresh at `now` with a lifetime of at least one second, the
/// credential has not expired at `now`; without a lifetime it never expires.
pub proof fn lemma_refreshed_is_fresh(
    before: CredentialView,
    grant: TokenGrantView,
    now: Timestamp,
)
    requires
        expiry_of(now, grant.expires_in) is Some,
        grant.expires_in matches Some(seconds) ==> seconds > 0,
    ensures
        !refreshed_credential(before, grant, expiry_of(now, grant.expires_in).unwrap()).expired_at(
            now,
        ),
{
}

/// Checks that each of the three addresses of a provider's settings parses,
/// in the order authorization, token, redirect.
pub fn check_config(config: &ProviderConfig) -> (r: Result<(), AccountsError>)
    ensures
        r is Ok <==> config_usable(config@),
        r matches Err(e) ==> e@ is UrlParse,
{
    match check_url(config.auth_url.as_str()) {
        Ok(_) => {},
        Err(e) => {
            return Err(AccountsError::UrlParse(url_error_text(&e)));
        },
    }
    match check_url(config.token_url.as_str()) {
        Ok(_) => {},
        Err(e) => {
            return Err(AccountsError::UrlParse(url_error_text(&e)));
        },
    }
    match check_url(config.redirect_uri.as_str()) {
        Ok(_) => Ok(()),
        Err(e) => Err(AccountsError::UrlParse(url_error_text(&e))),
    }
}

/// The sign-in engine: the providers' settings, the sign-ins that are
/// pending, and the credential store.
#[derive(Debug)]
pub struct AuthManager {
    pub configs: ProviderRegistry,
    pub pending: PendingTable,
    pub storage: CredentialStorage,
}

impl AuthManager {
    /// An engine with the given providers' settings, without pending sign-ins
    /// and without credentials.
    pub fn new(configs: ProviderRegistry) -> (r: AuthManager)
        ensures
            r.configs@ == configs@,
            r.pending@ == Map::<Seq<char>, PendingAuthorizationView>::empty(),
            r.storage@ == Map::<AccountId, CredentialView>::empty(),
    {
        AuthManager { configs, pending: PendingTable::new(), storage: CredentialStorage::new() }
    }

    /// Records the settings of a provider, in place of any it had.
    pub fn add_provider_config(&mut self, provider: Provider, config: ProviderConfig)
        ensures
            final(self).configs@ == old(self).configs@.insert(provider, config@),
            final(self).pending@ == old(self).pending@,
            final(self).storage@ == old(self).storage@,
    {
        self.configs.insert(provider, config);
    }

    /// Starts a sign-in with a provider and returns the address to open in a
    /// browser. The state token and the PKCE verifier are fresh random values,
    /// and the sign-in is pending under the state token afterwards. Fails
    /// with `InvalidProviderConfig` if the provider has no settings and with
    /// `UrlParse` if one of its addresses does not parse; nothing is pending
    /// then that was not pending before. No request is sent.
    pub fn start_auth_flow(&mut self, provider: Provider) -> (r: Result<String, AccountsError>)
        ensures
            exists|state: Seq<char>, verifier: Seq<char>, now: Timestamp|
                verifier_usable(verifier) && #[trigger] started(
                    old(self).configs@,
                    old(self).pending@,
                    provider,
                    state,
                    verifier,
                    now,
                    r,
                    final(self).pending@,
                ),
            old(self).configs@.contains_key(provider) && config_usable(old(self).configs@[provider])
                <==> r is Ok,
            final(self).configs@ == old(self).configs@,
            final(self).storage@ == old(self).storage@,
    {
        let state = random_state_token();
        let verifier = random_pkce_verifier();
        let now = utc_now();
        let ghost s = state@;
        let ghost v = verifier@;
        let r = self.start_auth_flow_with(provider, state, verifier, now);
        assert(verifier_usable(v) && started(
            old(self).configs@,
            old(self).pending@,
            provider,
            s,
            v,
            now,
            r,
            self.pending@,
        ));
        r
    }

    /// Starts a sign-in with a provider under a given state token, with a
    /// given PKCE verifier, at a given time. A verifier of fewer than 43 or
    /// more than 128 bytes is refused as an invalid argument.
    pub fn start_auth_flow_with(
        &mut self,
        provider: Provider,
        state: String,
        verifier: String,
        now: Timestamp,
    ) -> (r: Result<String, AccountsError>)
        ensures
            started(
                old(self).configs@,
                old(self).pending@,
                provider,
                state@,
                verifier@,
                now,
                r,
                final(self).pending@,
            ),
            final(self).configs@ == old(self).configs@,
            final(self).storage@ == old(self).storage@,
    {
        let config = match self.configs.get(provider) {
            Some(c) => c,
            None => {
                return Err(AccountsError::InvalidProviderConfig);
            },
        };
        match check_config(config) {
            Ok(_) => {},
            Err(e) => {
                return Err(e);
            },
        }
        let text = verifier.as_str();
        let length = text.as_bytes().len();
        assert(length == byte_len(verifier@)) by {
            assert(text.spec_bytes() == vstd::utf8::encode_utf8(text@));
        }
        if length < 43 || length > 128 {
            return Err(
                AccountsError::InvalidArguments(
                    String::from_str("the PKCE verifier must have 43 to 128 bytes"),
                ),
            );
        }
        let extra = provider.extra_auth_params();
        let url = build_authorization_url(config, &extra.0, &extra.1, &state, &verifier);
        self.pending.insert(
            PendingAuthorization {
                state_token: state,
                provider,
                pkce_verifier: verifier,
                created_at: now,
            },
        );
        Ok(url)
    }

    /// Drops the sign-ins that were started before a point in time and never
    /// completed. Every other pending sign-in stays redeemable.
    pub fn expire_pending(&mut self, cutoff: &Timestamp)
        ensures
            final(self).pending@ == after_evict(old(self).pending@, *cutoff),
            final(self).configs@ == old(self).configs@,
            final(self).storage@ == old(self).storage@,
    {
        self.pending.evict_before(cutoff);
    }

    /// Redeems the state token that a redirect brought back, with the
    /// authorization code that came with it, and says what to exchange at the
    /// token endpoint. The pending sign-in leaves the table in this one step,
    /// so the token cannot be redeemed again, whatever becomes of the
    /// exchange. Fails with `InvalidState`, and changes nothing, if no sign-in
    /// is pending under the token.
    pub fn redeem_state(&mut self, csrf_token: &str, authorization_code: String) -> (r: Result<
        CodeExchange,
        AccountsError,
    >)
        ensures
            redeemed_as(
                old(self).configs@,
                old(self).pending@,
                csrf_token@,
                authorization_code@,
                r,
            ),
            final(self).pending@ == after_redeem(old(self).pending@, csrf_token@),
            final(self).configs@ == old(self).configs@,
            final(self).storage@ == old(self).storage@,
    {
        let entry = match self.pending.remove(csrf_token) {
            Some(entry) => entry,
            None => {
                assert(self.pending@ =~= after_redeem(old(self).pending@, csrf_token@));
                return Err(AccountsError::InvalidState);
            },
        };
        let config = match self.configs.get(entry.provider) {
            Some(c) => c,
            None => {
                return Err(AccountsError::InvalidProviderConfig);
            },
        };
        match check_config(config) {
            Ok(_) => {},
            Err(e) => {
                return Err(e);
            },
        }
        Ok(
            CodeExchange {
                provider: entry.provider,
                config: config.clone(),
                authorization_code,
                pkce_verifier: entry.pkce_verifier,
            },
        )
    }

    /// Turns what the token endpoint granted and what the identity endpoint
    /// reported into a new account, under a fresh random identifier, created
    /// now, and writes the account's credential to the store. The account is
    /// not yet in the registry: the caller adds it. Fails with
    /// `AccountAlreadyExists` if the registry holds an account of the provider
    /// under the reported user name; the store stays as it was after every
    /// failure.
    pub fn complete_auth_flow(
        &mut self,
        registry: &AccountsConfig,
        provider: Provider,
        grant: TokenGrant,
        user_info: UserInfo,
    ) -> (r: Result<Account, AccountsError>)
        ensures
            exists|id: AccountId, now: Timestamp| #[trigger]
                completed(
                    old(self).configs@,
                    registry@,
                    old(self).storage@,
                    provider,
                    grant@,
                    user_info@,
                    id,
                    now,
                    r,
                    final(self).storage@,
                ),
            !old(self).configs@.contains_key(provider) ==> (r matches Err(e) && e@
                == AccountsErrorView::InvalidProviderConfig),
            r is Err ==> final(self).storage@ == old(self).storage@,
            has_identity(registry@, provider, user_info@.username) ==> r is Err,
            final(self).configs@ == old(self).configs@,
            final(self).pending@ == old(self).pending@,
    {
        let id = AccountId::generate();
        let now = utc_now();
        let r = self.complete_auth_flow_with(registry, provider, grant, user_info, id, now);
        assert(completed(
            old(self).configs@,
            registry@,
            old(self).storage@,
            provider,
            grant@,
            user_info@,
            id,
            now,
            r,
            self.storage@,
        ));
        r
    }

    /// Turns a grant and a reported identity into a new account under a given
    /// identifier, created at a given time. A token lifetime that leads past
    /// the last point in time fails the sign-in; an identifier that the
    /// registry already holds is refused like a user name that it holds.
    pub fn complete_auth_flow_with(
        &mut self,
        registry: &AccountsConfig,
        provider: Provider,
        grant: TokenGrant,
        user_info: UserInfo,
        id: AccountId,
        now: Timestamp,
    ) -> (r: Result<Account, AccountsError>)
        ensures
            completed(
                old(self).configs@,
                registry@,
                old(self).storage@,
                provider,
                grant@,
                user_info@,
                id,
                now,
                r,
                final(self).storage@,
            ),
            final(self).configs@ == old(self).configs@,
            final(self).pending@ == old(self).pending@,
    {
        let config = match self.configs.get(provider) {
            Some(c) => c,
            None => {
                return Err(AccountsError::InvalidProviderConfig);
            },
        };
        let expires_at = match expiry(&now, grant.expires_in) {
            Some(t) => t,
            None => {
                return Err(
                    AccountsError::AuthenticationFailed {
                        reason: String::from_str("Token lifetime is out of range"),
                    },
                );
            },
        };
        if registry.account_exists(&user_info.username, &provider) {
            return Err(AccountsError::AccountAlreadyExists);
        }
        if registry.get_account(&id).is_some() {
            return Err(AccountsError::AccountAlreadyExists);
        }
        let credential = Credential {
            access_token: grant.access_token,
            refresh_token: grant.refresh_token,
            expires_at,
            scope: clone_texts(&config.scopes),
            token_type: String::from_str("Bearer"),
        };
        let account = Account {
            id,
            provider,
            display_name: user_info.display_name,
            username: user_info.username,
            email: user_info.email,
            enabled: true,
            created_at: now,
            last_used: Some(now),
            capabilities: provider.services(),
        };
        self.storage.set_account_credentials(&id, &credential);
        Ok(account)
    }

    /// Checks now whether the account's credential must be refreshed before
    /// its access token is used. `Ok(None)` says that the credential has not
    /// expired: nothing is to be done. `Ok(Some(..))` says what to exchange at
    /// the token endpoint. Fails with `TokenExpired` if the credential has
    /// expired and there is no refresh token. The store is only read.
    pub fn ensure_credentials(&self, account_id: &AccountId, provider: Provider) -> (r: Result<
        Option<RefreshRequest>,
        AccountsError,
    >)
        ensures
            exists|now: Timestamp| #[trigger]
                checked(self.configs@, self.storage@, *account_id, provider, now, r),
            !self.storage@.contains_key(*account_id) ==> r is Err,
            self.storage@.contains_key(*account_id) && self.storage@[*account_id].expires_at
                is None ==> r matches Ok(None),
    {
        let now = utc_now();
        let r = self.ensure_credentials_at(account_id, provider, &now);
        assert(checked(self.configs@, self.storage@, *account_id, provider, now, r));
        r
    }

    /// Checks whether the account's credential must be refreshed at a given
    /// time: it must if it has an expiry time and that time is `now` or
    /// earlier.
    pub fn ensure_credentials_at(
        &self,
        account_id: &AccountId,
        provider: Provider,
        now: &Timestamp,
    ) -> (r: Result<Option<RefreshRequest>, AccountsError>)
        ensures
            checked(self.configs@, self.storage@, *account_id, provider, *now, r),
    {
        let credential = match self.storage.get_account_credentials(account_id) {
            Ok(c) => c,
            Err(e) => {
                return Err(e);
            },
        };
        if !credential.is_expired(now) {
            return Ok(None);
        }
        let config = match self.configs.get(provider) {
            Some(c) => c,
            None => {
                return Err(AccountsError::InvalidProviderConfig);
            },
        };
        let refresh_token = match credential.refresh_token {
            Some(t) => t,
            None => {
                return Err(AccountsError::TokenExpired { account_id: account_id.to_string() });
            },
        };
        match check_config(config) {
            Ok(_) => {},
            Err(e) => {
                return Err(e);
            },
        }
        Ok(Some(RefreshRequest { account_id: *account_id, config: config.clone(), refresh_token }))
    }

    /// Overwrites the account's credential with what a refresh granted now:
    /// one write of the whole credential.
    pub fn refresh_token(&mut self, account_id: &AccountId, grant: &TokenGrant) -> (r: Result<
        (),
        AccountsError,
    >)
        ensures
            exists|now: Timestamp| #[trigger]
                refreshed(
                    old(self).storage@,
                    *account_id,
                    grant@,
                    now,
                    r,
                    final(self).storage@,
                ),
            !old(self).storage@.contains_key(*account_id) ==> r is Err,
            r is Err ==> final(self).storage@ == old(self).storage@,
            old(self).storage@.contains_key(*account_id) && grant@.expires_in is None ==> r is Ok,
            final(self).configs@ == old(self).configs@,
            final(self).pending@ == old(self).pending@,
    {
        let now = utc_now();
        let r = self.refresh_token_at(account_id, grant, &now);
        assert(refreshed(old(self).storage@, *account_id, grant@, now, r, self.storage@));
        r
    }

    /// Overwrites the account's credential with what a refresh granted at a
    /// given time. The access token and the expiry time are replaced; the
    /// refresh token is replaced if the provider sent a new one. Fails, and
    /// leaves the store as it was, if the store holds no credential for the
    /// account or if the token's lifetime leads past the last point in time.
    pub fn refresh_token_at(
        &mut self,
        account_id: &AccountId,
        grant: &TokenGrant,
        now: &Timestamp,
    ) -> (r: Result<(), AccountsError>)
        ensures
            refreshed(old(self).storage@, *account_id, grant@, *now, r, final(self).storage@),
            final(self).configs@ == old(self).configs@,
            final(self).pending@ == old(self).pending@,
    {
        let before = match self.storage.get_account_credentials(account_id) {
            Ok(c) => c,
            Err(e) => {
                return Err(e);
            },
        };
        let expires_at = match expiry(now, grant.expires_in) {
            Some(t) => t,
            None => {
                return Err(AccountsError::TokenRefreshFailed(account_id.to_string()));
            },
        };
        let refresh_token = if grant.refresh_token.is_some() {
            clone_opt_text(&grant.refresh_token)
        } else {
            before.refresh_token
        };
        let credential = Credential {
            access_token: grant.access_token.clone(),
            refresh_token,
            expires_at,
            scope: before.scope,
            token_type: before.token_type,
        };
        self.storage.set_account_credentials(account_id, &credential);
        Ok(())
    }

    /// Deletes the account's credential and says whether there was one.
    pub fn delete_credentials(&mut self, id: &AccountId) -> (r: bool)
        ensures
            final(self).storage@ == old(self).storage@.remove(*id),
            r == old(self).storage@.contains_key(*id),
            final(self).configs@ == old(self).configs@,
            final(self).pending@ == old(self).pending@,
    {
        self.storage.delete_account_credentials(id)
    }

    /// The account's credential. Fails with `StorageError` if the store
    /// holds none.
    pub fn get_account_credentials(&self, id: &AccountId) -> (r: Result<Credential, AccountsError>)
        ensures
            self.storage@.contains_key(*id) ==> (r matches Ok(c) && c@ == self.storage@[*id]),
            !self.storage@.contains_key(*id) ==> (r matches Err(e) && e@
                == AccountsErrorView::StorageError(missing_credentials_message(*id))),
    {
        self.storage.get_account_credentials(id)
    }
}

} // verus!
