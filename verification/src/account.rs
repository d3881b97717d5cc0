//! Linked accounts: their identifiers and their public records.

use vstd::prelude::*;
use vstd::string::StringExecFns;
use crate::capability::CapabilityMap;
use crate::error::AccountsError;
use crate::outside::{
    new_uuid, parse_uuid, replace_text, replaced, uuid_error_text, uuid_of_text, uuid_text,
    uuid_to_text,
};
use crate::provider::Provider;
use crate::text::{clone_opt_text, opt_text, same_opt_text};
use crate::time::Timestamp;

verus! {

/// The identifier of an account: the 128-bit value of a UUID.
#[derive(Debug, Clone, Copy, PartialEq, Eq, Hash, Structural)]
pub struct AccountId(pub u128);

/// Whether a 128-bit value has the version and variant fields of a random
/// (version 4) UUID.
pub open spec fn is_random_uuid(value: u128) -> bool {
    value & 0x0000_0000_0000_f000_c000_0000_0000_0000u128
        == 0x0000_0000_0000_4000_8000_0000_0000_0000u128
}

impl AccountId {
    /// A fresh random identifier.
    pub fn generate() -> (r: AccountId)
        ensures
            is_random_uuid(r.0),
    {
        AccountId(new_uuid())
    }

    /// Reads an identifier from its text. A text that is no UUID is rejected
    /// as an invalid argument.
    pub fn parse(s: &str) -> (r: Result<AccountId, AccountsError>)
        ensures
            uuid_of_text(s@) matches Some(v) ==> r == Ok::<AccountId, AccountsError>(AccountId(v)),
            uuid_of_text(s@) is None ==> (r matches Err(e) && e@ is InvalidArguments),
    {
        match parse_uuid(s) {
            Ok(v) => Ok(AccountId(v)),
            Err(e) => Err(AccountsError::InvalidArguments(uuid_error_text(&e))),
        }
    }

    /// The identifier's text: 32 hexadecimal digits in five groups.
    pub fn to_string(&self) -> (r: String)
        ensures
            r@ == uuid_text(self.0),
    {
        uuid_to_text(self.0)
    }

    /// The identifier's text with an underscore in place of each hyphen, for
    /// use in object paths of the message bus.
    pub fn dbus_id(&self) -> (r: String)
        ensures
            r@ == replaced(uuid_text(self.0), "-"@, "_"@),
    {
        let text = self.to_string();
        replace_text(text.as_str(), "-", "_")
    }
}

/// What an account's record holds.
pub struct AccountView {
    pub id: AccountId,
    pub provider: Provider,
    pub display_name: Seq<char>,
    pub username: Seq<char>,
    pub email: Option<Seq<char>>,
    pub enabled: bool,
    pub created_at: Timestamp,
    pub last_used: Option<Timestamp>,
    pub capabilities: CapabilityMap,
}

/// The public record of a linked account. It holds no secret: the account's
/// tokens live in the credential store under the same identifier.
#[derive(Debug)]
pub struct Account {
    pub id: AccountId,
    pub provider: Provider,
    pub display_name: String,
    pub username: String,
    pub email: Option<String>,
    pub enabled: bool,
    pub created_at: Timestamp,
    pub last_used: Option<Timestamp>,
    pub capabilities: CapabilityMap,
}

impl View for Account {
    type V = AccountView;

    open spec fn view(&self) -> AccountView {
        AccountView {
            id: self.id,
            provider: self.provider,
            display_name: self.display_name@,
            username: self.username@,
            email: opt_text(self.email),
            enabled: self.enabled,
            created_at: self.created_at,
            last_used: self.last_used,
            capabilities: self.capabilities,
        }
    }
}

impl Clone for Account {
    fn clone(&self) -> (r: Self)
        ensures
            r@ == self@,
    {
        Account {
            id: self.id,
            provider: self.provider,
            display_name: self.display_name.clone(),
            username: self.username.clone(),
            email: clone_opt_text(&self.email),
            enabled: self.enabled,
            created_at: self.created_at,
            last_used: self.last_used,
            capabilities: self.capabilities,
        }
    }
}

impl PartialEq for Account {
    fn eq(&self, other: &Self) -> (r: bool) {
        self.id == other.id && self.provider == other.provider && self.display_name
            == other.display_name && self.username == other.username && same_opt_text(
            &self.email,
            &other.email,
        ) && self.enabled == other.enabled && self.created_at == other.created_at
            && self.last_used == other.last_used && self.capabilities == other.capabilities
    }
}

impl vstd::std_specs::cmp::PartialEqSpecImpl for Account {
    open spec fn obeys_eq_spec() -> bool {
        true
    }

    open spec fn eq_spec(&self, other: &Self) -> bool {
        self@ == other@
    }
}

impl Account {
    /// The account's identifier with an underscore in place of each hyphen.
    pub fn dbus_id(&self) -> (r: String)
        ensures
            r@ == replaced(uuid_text(self.id.0), "-"@, "_"@),
    {
        self.id.dbus_id()
    }

    /// Whether the account belongs to the provider under the user name.
    pub fn has_identity(&self, provider: Provider, username: &String) -> (r: bool)
        ensures
            r == (self@.provider == provider && self@.username == username@),
    {
        self.provider == provider && self.username == *username
    }
}

/// The identity that the provider's identity endpoint reported for a user.
#[derive(Debug)]
pub struct UserInfo {
    pub display_name: String,
    pub username: String,
    pub email: Option<String>,
}

/// What a reported identity holds.
pub struct UserInfoView {
    pub display_name: Seq<char>,
    pub username: Seq<char>,
    pub email: Option<Seq<char>>,
}

impl View for UserInfo {
    type V = UserInfoView;

    open spec fn view(&self) -> UserInfoView {
        UserInfoView {
            display_name: self.display_name@,
            username: self.username@,
            email: opt_text(self.email),
        }
    }
}

} // verus!
