//! The library's one error type, its messages, and the messages it carries
//! across the call interface.

use vstd::prelude::*;
use vstd::string::StringExecFns;

verus! {

/// Everything that an operation of this library can fail with. Failures of
/// collaborators (the network, the secret store, the message bus) are carried
/// as the text they were reported with.
#[derive(Debug)]
pub enum AccountsError {
    /// No account has the given identifier.
    AccountNotFound(String),
    /// The registry could not be persisted after an account was added.
    AccountNotSaved(String),
    /// The registry could not be persisted after an account was changed.
    AccountNotUpdated(String),
    /// The account's record or its secret could not be removed.
    AccountNotRemoved(String),
    /// An account with the same provider and user name is already linked.
    AccountAlreadyExists,
    /// The name is not that of a capability.
    InvalidService(String),
    /// An argument is malformed.
    InvalidArguments(String),
    /// The credential store holds nothing usable for the account.
    StorageError(String),
    /// The sign-in could not be completed.
    AuthenticationFailed { reason: String },
    /// The access token has expired and there is no refresh token.
    TokenExpired { account_id: String },
    /// The token endpoint refused to refresh the access token.
    TokenRefreshFailed(String),
    /// The state token matches no pending authorization.
    InvalidState,
    Network(String),
    OAuth2(String),
    Serialization(String),
    CredentialStorage(String),
    CosmicConfig(String),
    DBus(String),
    Zbus(String),
    Io(String),
    /// The provider has no endpoint settings.
    InvalidProviderConfig,
    /// The name is not that of a provider.
    InvalidProvider(String),
    Utf8(String),
    UrlParse(String),
    TomlParse(String),
}

/// What an error holds.
pub enum AccountsErrorView {
    AccountNotFound(Seq<char>),
    AccountNotSaved(Seq<char>),
    AccountNotUpdated(Seq<char>),
    AccountNotRemoved(Seq<char>),
    AccountAlreadyExists,
    InvalidService(Seq<char>),
    InvalidArguments(Seq<char>),
    StorageError(Seq<char>),
    AuthenticationFailed { reason: Seq<char> },
    TokenExpired { account_id: Seq<char> },
    TokenRefreshFailed(Seq<char>),
    InvalidState,
    Network(Seq<char>),
    OAuth2(Seq<char>),
    Serialization(Seq<char>),
    CredentialStorage(Seq<char>),
    CosmicConfig(Seq<char>),
    DBus(Seq<char>),
    Zbus(Seq<char>),
    Io(Seq<char>),
    InvalidProviderConfig,
    InvalidProvider(Seq<char>),
    Utf8(Seq<char>),
    UrlParse(Seq<char>),
    TomlParse(Seq<char>),
}

impl View for AccountsError {
    type V = AccountsErrorView;

    open spec fn view(&self) -> AccountsErrorView {
        match self {
            AccountsError::AccountNotFound(s) => AccountsErrorView::AccountNotFound(s@),
            AccountsError::AccountNotSaved(s) => AccountsErrorView::AccountNotSaved(s@),
            AccountsError::AccountNotUpdated(s) => AccountsErrorView::AccountNotUpdated(s@),
            AccountsError::AccountNotRemoved(s) => AccountsErrorView::AccountNotRemoved(s@),
            AccountsError::AccountAlreadyExists => AccountsErrorView::AccountAlreadyExists,
            AccountsError::InvalidService(s) => AccountsErrorView::InvalidService(s@),
            AccountsError::InvalidArguments(s) => AccountsErrorView::InvalidArguments(s@),
            AccountsError::StorageError(s) => AccountsErrorView::StorageError(s@),
            AccountsError::AuthenticationFailed { reason } => AccountsErrorView::AuthenticationFailed {
                reason: reason@,
            },
            AccountsError::TokenExpired { account_id } => AccountsErrorView::TokenExpired {
                account_id: account_id@,
            },
            AccountsError::TokenRefreshFailed(s) => AccountsErrorView::TokenRefreshFailed(s@),
            AccountsError::InvalidState => AccountsErrorView::InvalidState,
            AccountsError::Network(s) => AccountsErrorView::Network(s@),
            AccountsError::OAuth2(s) => AccountsErrorView::OAuth2(s@),
            AccountsError::Serialization(s) => AccountsErrorView::Serialization(s@),
            AccountsError::CredentialStorage(s) => AccountsErrorView::CredentialStorage(s@),
            AccountsError::CosmicConfig(s) => AccountsErrorView::CosmicConfig(s@),
            AccountsError::DBus(s) => AccountsErrorView::DBus(s@),
            AccountsError::Zbus(s) => AccountsErrorView::Zbus(s@),
            AccountsError::Io(s) => AccountsErrorView::Io(s@),
            AccountsError::InvalidProviderConfig => AccountsErrorView::InvalidProviderConfig,
            AccountsError::InvalidProvider(s) => AccountsErrorView::InvalidProvider(s@),
            AccountsError::Utf8(s) => AccountsErrorView::Utf8(s@),
            AccountsError::UrlParse(s) => AccountsErrorView::UrlParse(s@),
            AccountsError::TomlParse(s) => AccountsErrorView::TomlParse(s@),
        }
    }
}

/// The message that describes an error.
pub open spec fn message_of(e: AccountsErrorView) -> Seq<char> {
    match e {
        AccountsErrorView::AccountNotFound(s) => "Account not found: "@ + s,
        AccountsErrorView::AccountNotSaved(s) => "Account not saved: "@ + s,
        AccountsErrorView::AccountNotUpdated(s) => "Account not updated: "@ + s,
        AccountsErrorView::AccountNotRemoved(s) => "Account not removed: "@ + s,
        AccountsErrorView::AccountAlreadyExists => "Account already exists"@,
        AccountsErrorView::InvalidService(s) => "Invalid service: "@ + s,
        AccountsErrorView::InvalidArguments(s) => "Invalid arguments: "@ + s,
        AccountsErrorView::StorageError(s) => "Storage error: "@ + s,
        AccountsErrorView::AuthenticationFailed { reason } => "Authentication failed: "@ + reason,
        AccountsErrorView::TokenExpired { account_id } => "Token expired for account: "@ + account_id,
        AccountsErrorView::TokenRefreshFailed(s) => "Token refresh failed for account: "@ + s,
        AccountsErrorView::InvalidState => "Invalid state token"@,
        AccountsErrorView::Network(s) => "Network error: "@ + s,
        AccountsErrorView::OAuth2(s) => "OAuth2 error: "@ + s,
        AccountsErrorView::Serialization(s) => "Serialization error: "@ + s,
        AccountsErrorView::CredentialStorage(s) => "Storage error: "@ + s,
        AccountsErrorView::CosmicConfig(s) => "Cosmic Config error: "@ + s,
        AccountsErrorView::DBus(s) => "D-Bus error: "@ + s,
        AccountsErrorView::Zbus(s) => "Zbus error: "@ + s,
        AccountsErrorView::Io(s) => "IO error: "@ + s,
        AccountsErrorView::InvalidProviderConfig => "Invalid provider configuration"@,
        AccountsErrorView::InvalidProvider(s) => "Invalid provider "@ + s,
        AccountsErrorView::Utf8(s) => "UTF8 error: "@ + s,
        AccountsErrorView::UrlParse(s) => "URL parsing error: "@ + s,
        AccountsErrorView::TomlParse(s) => "TOML parsing error: "@ + s,
    }
}

/// The message that an error is reported with across the call interface.
pub open spec fn rpc_message_of(e: AccountsErrorView) -> Seq<char> {
    match e {
        AccountsErrorView::AccountNotFound(s) => "Account "@ + s + " not found."@,
        AccountsErrorView::AccountNotSaved(s) => "Account not saved: "@ + s,
        AccountsErrorView::AccountNotUpdated(s) => "Account not updated: "@ + s,
        AccountsErrorView::AccountNotRemoved(s) => "Account not removed: "@ + s,
        AccountsErrorView::AccountAlreadyExists => "Account already exists"@,
        AccountsErrorView::InvalidService(s) => "Invalid service: "@ + s,
        AccountsErrorView::InvalidArguments(s) => "Invalid arguments: "@ + s,
        AccountsErrorView::StorageError(s) => "Storage error: "@ + s,
        AccountsErrorView::AuthenticationFailed { reason } => reason,
        AccountsErrorView::TokenExpired { account_id } => "Token expired for "@ + account_id,
        AccountsErrorView::TokenRefreshFailed(s) => "Token refresh failed for account: "@ + s,
        AccountsErrorView::InvalidState => "Invalid state token"@,
        AccountsErrorView::Network(s) => "Network error: "@ + s,
        AccountsErrorView::OAuth2(s) => "OAuth2 error: "@ + s,
        AccountsErrorView::Serialization(s) => "Serialization error: "@ + s,
        AccountsErrorView::CredentialStorage(s) => "Credential storage error: "@ + s,
        AccountsErrorView::CosmicConfig(s) => "Cosmic config error: "@ + s,
        AccountsErrorView::DBus(s) => "DBus error: "@ + s,
        AccountsErrorView::Zbus(s) => "Zbus error: "@ + s,
        AccountsErrorView::Io(s) => "IO error: "@ + s,
        AccountsErrorView::InvalidProviderConfig => "Invalid provider configuration"@,
        AccountsErrorView::InvalidProvider(s) => "Invalid provider: "@ + s,
        AccountsErrorView::Utf8(s) => "UTF-8 error: "@ + s,
        AccountsErrorView::UrlParse(s) => "URL parse error: "@ + s,
        AccountsErrorView::TomlParse(s) => "Toml parse error: "@ + s,
    }
}

/// The detail of the failure to persist a change of an account.
pub open spec fn not_updated_detail(id: Seq<char>, reason: Seq<char>) -> Seq<char> {
    "Account "@ + id + " not updated: "@ + reason
}

/// The detail of the failure to persist the removal of an account.
pub open spec fn not_removed_detail(id: Seq<char>, reason: Seq<char>) -> Seq<char> {
    "Account "@ + id + " not removed: "@ + reason
}

/// The detail of a partial removal: the account's record is gone, its secret
/// is still in the secret store.
pub open spec fn partial_removal_detail(id: Seq<char>, reason: Seq<char>) -> Seq<char> {
    "Account "@ + id + " was removed, its secret was not: "@ + reason
}

/// A prefix followed by a detail.
fn prefixed(prefix: &str, detail: &String) -> (r: String)
    ensures
        r@ == prefix@ + detail@,
{
    String::from_str(prefix).concat(detail.as_str())
}

impl AccountsError {
    /// The failure to persist a change of the account with the identifier.
    pub fn not_updated(id: &str, reason: &str) -> (r: AccountsError)
        ensures
            r@ == AccountsErrorView::AccountNotUpdated(not_updated_detail(id@, reason@)),
    {
        AccountsError::AccountNotUpdated(
            String::from_str("Account ").concat(id).concat(" not updated: ").concat(reason),
        )
    }

    /// The failure to persist the removal of the account with the identifier.
    pub fn not_removed(id: &str, reason: &str) -> (r: AccountsError)
        ensures
            r@ == AccountsErrorView::AccountNotRemoved(not_removed_detail(id@, reason@)),
    {
        AccountsError::AccountNotRemoved(
            String::from_str("Account ").concat(id).concat(" not removed: ").concat(reason),
        )
    }

    /// The partial removal of the account with the identifier: its record is
    /// gone, its secret could not be deleted.
    pub fn secret_not_removed(id: &str, reason: &str) -> (r: AccountsError)
        ensures
            r@ == AccountsErrorView::AccountNotRemoved(partial_removal_detail(id@, reason@)),
    {
        AccountsError::AccountNotRemoved(
            String::from_str("Account ").concat(id).concat(
                " was removed, its secret was not: ",
            ).concat(reason),
        )
    }

    /// The message that describes the error.
    pub fn message(&self) -> (r: String)
        ensures
            r@ == message_of(self@),
    {
        match self {
            AccountsError::AccountNotFound(s) => prefixed("Account not found: ", s),
            AccountsError::AccountNotSaved(s) => prefixed("Account not saved: ", s),
            AccountsError::AccountNotUpdated(s) => prefixed("Account not updated: ", s),
            AccountsError::AccountNotRemoved(s) => prefixed("Account not removed: ", s),
            AccountsError::AccountAlreadyExists => String::from_str("Account already exists"),
            AccountsError::InvalidService(s) => prefixed("Invalid service: ", s),
            AccountsError::InvalidArguments(s) => prefixed("Invalid arguments: ", s),
            AccountsError::StorageError(s) => prefixed("Storage error: ", s),
            AccountsError::AuthenticationFailed { reason } => prefixed(
                "Authentication failed: ",
                reason,
            ),
            AccountsError::TokenExpired { account_id } => prefixed(
                "Token expired for account: ",
                account_id,
            ),
            AccountsError::TokenRefreshFailed(s) => prefixed("Token refresh failed for account: ", s),
            AccountsError::InvalidState => String::from_str("Invalid state token"),
            AccountsError::Network(s) => prefixed("Network error: ", s),
            AccountsError::OAuth2(s) => prefixed("OAuth2 error: ", s),
            AccountsError::Serialization(s) => prefixed("Serialization error: ", s),
            AccountsError::CredentialStorage(s) => prefixed("Storage error: ", s),
            AccountsError::CosmicConfig(s) => prefixed("Cosmic Config error: ", s),
            AccountsError::DBus(s) => prefixed("D-Bus error: ", s),
            AccountsError::Zbus(s) => prefixed("Zbus error: ", s),
            AccountsError::Io(s) => prefixed("IO error: ", s),
            AccountsError::InvalidProviderConfig => String::from_str("Invalid provider configuration"),
            AccountsError::InvalidProvider(s) => prefixed("Invalid provider ", s),
            AccountsError::Utf8(s) => prefixed("UTF8 error: ", s),
            AccountsError::UrlParse(s) => prefixed("URL parsing error: ", s),
            AccountsError::TomlParse(s) => prefixed("TOML parsing error: ", s),
        }
    }

    /// The message that the error is reported with across the call interface:
    /// the one conversion at the boundary, which every transport uses.
    pub fn rpc_message(&self) -> (r: String)
        ensures
            r@ == rpc_message_of(self@),
    {
        match self {
            AccountsError::AccountNotFound(s) => prefixed("Account ", s).concat(" not found."),
            AccountsError::AccountNotSaved(s) => prefixed("Account not saved: ", s),
            AccountsError::AccountNotUpdated(s) => prefixed("Account not updated: ", s),
            AccountsError::AccountNotRemoved(s) => prefixed("Account not removed: ", s),
            AccountsError::AccountAlreadyExists => String::from_str("Account already exists"),
            AccountsError::InvalidService(s) => prefixed("Invalid service: ", s),
            AccountsError::InvalidArguments(s) => prefixed("Invalid arguments: ", s),
            AccountsError::StorageError(s) => prefixed("Storage error: ", s),
            AccountsError::AuthenticationFailed { reason } => reason.clone(),
            AccountsError::TokenExpired { account_id } => prefixed("Token expired for ", account_id),
            AccountsError::TokenRefreshFailed(s) => prefixed("Token refresh failed for account: ", s),
            AccountsError::InvalidState => String::from_str("Invalid state token"),
            AccountsError::Network(s) => prefixed("Network error: ", s),
            AccountsError::OAuth2(s) => prefixed("OAuth2 error: ", s),
            AccountsError::Serialization(s) => prefixed("Serialization error: ", s),
            AccountsError::CredentialStorage(s) => prefixed("Credential storage error: ", s),
            AccountsError::CosmicConfig(s) => prefixed("Cosmic config error: ", s),
            AccountsError::DBus(s) => prefixed("DBus error: ", s),
            AccountsError::Zbus(s) => prefixed("Zbus error: ", s),
            AccountsError::Io(s) => prefixed("IO error: ", s),
            AccountsError::InvalidProviderConfig => String::from_str("Invalid provider configuration"),
            AccountsError::InvalidProvider(s) => prefixed("Invalid provider: ", s),
            AccountsError::Utf8(s) => prefixed("UTF-8 error: ", s),
            AccountsError::UrlParse(s) => prefixed("URL parse error: ", s),
            AccountsError::TomlParse(s) => prefixed("Toml parse error: ", s),
        }
    }
}

impl Clone for AccountsError {
    fn clone(&self) -> (r: Self)
        ensures
            r@ == self@,
    {
        match self {
            AccountsError::AccountNotFound(s) => AccountsError::AccountNotFound(s.clone()),
            AccountsError::AccountNotSaved(s) => AccountsError::AccountNotSaved(s.clone()),
            AccountsError::AccountNotUpdated(s) => AccountsError::AccountNotUpdated(s.clone()),
            AccountsError::AccountNotRemoved(s) => AccountsError::AccountNotRemoved(s.clone()),
            AccountsError::AccountAlreadyExists => AccountsError::AccountAlreadyExists,
            AccountsError::InvalidService(s) => AccountsError::InvalidService(s.clone()),
            AccountsError::InvalidArguments(s) => AccountsError::InvalidArguments(s.clone()),
            AccountsError::StorageError(s) => AccountsError::StorageError(s.clone()),
            AccountsError::AuthenticationFailed { reason } => AccountsError::AuthenticationFailed {
                reason: reason.clone(),
            },
            AccountsError::TokenExpired { account_id } => AccountsError::TokenExpired {
                account_id: account_id.clone(),
            },
            AccountsError::TokenRefreshFailed(s) => AccountsError::TokenRefreshFailed(s.clone()),
            AccountsError::InvalidState => AccountsError::InvalidState,
            AccountsError::Network(s) => AccountsError::Network(s.clone()),
            AccountsError::OAuth2(s) => AccountsError::OAuth2(s.clone()),
            AccountsError::Serialization(s) => AccountsError::Serialization(s.clone()),
            AccountsError::CredentialStorage(s) => AccountsError::CredentialStorage(s.clone()),
            AccountsError::CosmicConfig(s) => AccountsError::CosmicConfig(s.clone()),
            AccountsError::DBus(s) => AccountsError::DBus(s.clone()),
            AccountsError::Zbus(s) => AccountsError::Zbus(s.clone()),
            AccountsError::Io(s) => AccountsError::Io(s.clone()),
            AccountsError::InvalidProviderConfig => AccountsError::InvalidProviderConfig,
            AccountsError::InvalidProvider(s) => AccountsError::InvalidProvider(s.clone()),
            AccountsError::Utf8(s) => AccountsError::Utf8(s.clone()),
            AccountsError::UrlParse(s) => AccountsError::UrlParse(s.clone()),
            AccountsError::TomlParse(s) => AccountsError::TomlParse(s.clone()),
        }
    }
}

} // verus!
