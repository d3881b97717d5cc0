//! Credentials: the secret token material of an account.

use vstd::prelude::*;
use crate::text::{clone_opt_text, clone_texts, opt_text, same_opt_text, same_texts, texts};
use crate::time::Timestamp;

verus! {

/// What a credential holds.
pub struct CredentialView {
    pub access_token: Seq<char>,
    pub refresh_token: Option<Seq<char>>,
    pub expires_at: Option<Timestamp>,
    pub scope: Seq<Seq<char>>,
    pub token_type: Seq<char>,
}

impl CredentialView {
    /// Whether the credential has an expiry time and that time is `now` or
    /// earlier.
    pub open spec fn expired_at(self, now: Timestamp) -> bool {
        self.expires_at matches Some(t) && t.at_or_before(now)
    }
}

/// The secret token material of one account.
#[derive(Debug)]
pub struct Credential {
    pub access_token: String,
    pub refresh_token: Option<String>,
    pub expires_at: Option<Timestamp>,
    pub scope: Vec<String>,
    pub token_type: String,
}

impl View for Credential {
    type V = CredentialView;

    open spec fn view(&self) -> CredentialView {
        CredentialView {
            access_token: self.access_token@,
            refresh_token: opt_text(self.refresh_token),
            expires_at: self.expires_at,
            scope: texts(self.scope@),
            token_type: self.token_type@,
        }
    }
}

impl Clone for Credential {
    fn clone(&self) -> (r: Self)
        ensures
            r@ == self@,
    {
        Credential {
            access_token: self.access_token.clone(),
            refresh_token: clone_opt_text(&self.refresh_token),
            expires_at: self.expires_at,
            scope: clone_texts(&self.scope),
            token_type: self.token_type.clone(),
        }
    }
}

impl PartialEq for Credential {
    fn eq(&self, other: &Self) -> (r: bool) {
        self.access_token == other.access_token && same_opt_text(
            &self.refresh_token,
            &other.refresh_token,
        ) && self.expires_at == other.expires_at && same_texts(&self.scope, &other.scope)
            && self.token_type == other.token_type
    }
}

impl vstd::std_specs::cmp::PartialEqSpecImpl for Credential {
    open spec fn obeys_eq_spec() -> bool {
        true
    }

    open spec fn eq_spec(&self, other: &Self) -> bool {
        self@ == other@
    }
}

impl Credential {
    /// Whether the credential has an expiry time and that time is `now` or
    /// earlier. A credential without an expiry time never expires.
    pub fn is_expired(&self, now: &Timestamp) -> (r: bool)
        ensures
            r == self@.expired_at(*now),
    {
        match &self.expires_at {
            Some(t) => t.is_at_or_before(now),
            None => false,
        }
    }
}

/// What the token endpoint returned: the access token, a refresh token if it
/// issued one, and the access token's lifetime in seconds if it gave one.
#[derive(Debug)]
pub struct TokenGrant {
    pub access_token: String,
    pub refresh_token: Option<String>,
    pub expires_in: Option<u64>,
}

/// What a token grant holds.
pub struct TokenGrantView {
    pub access_token: Seq<char>,
    pub refresh_token: Option<Seq<char>>,
    pub expires_in: Option<u64>,
}

impl View for TokenGrant {
    type V = TokenGrantView;

    open spec fn view(&self) -> TokenGrantView {
        TokenGrantView {
            access_token: self.access_token@,
            refresh_token: opt_text(self.refresh_token),
            expires_in: self.expires_in,
        }
    }
}

/// The expiry time of a token granted at `now` with the given lifetime: no
/// expiry without a lifetime; otherwise `now` moved forward by it. The outer
/// `None` stands for a lifetime that leads past the last point in time.
pub open spec fn expiry_of(now: Timestamp, expires_in: Option<u64>) -> Option<Option<Timestamp>> {
    match expires_in {
        None => Some(None),
        Some(seconds) => match now.spec_plus_seconds(seconds) {
            Some(t) => Some(Some(t)),
            None => None,
        },
    }
}

/// Computes the expiry time of a token granted at `now`.
pub fn expiry(now: &Timestamp, expires_in: Option<u64>) -> (r: Option<Option<Timestamp>>)
    ensures
        r == expiry_of(*now, expires_in),
{
    match expires_in {
        None => Some(None),
        Some(seconds) => match now.plus_seconds(seconds) {
            Some(t) => Some(Some(t)),
            None => None,
        },
    }
}

} // verus!
