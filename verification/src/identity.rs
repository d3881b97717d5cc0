//! Reading a user's identity from what the provider's identity endpoint
//! answered.

use vstd::prelude::*;
use vstd::string::StringExecFns;
use crate::account::{UserInfo, UserInfoView};
use crate::error::{AccountsError, AccountsErrorView};
use crate::outside::{json_error_text, json_member_text, json_members, json_parses};
use crate::provider::Provider;
use crate::text::{clone_opt_text, opt_text};

verus! {

/// A text, or `Unknown` in its absence.
pub open spec fn or_unknown(s: Option<Seq<char>>) -> Seq<char> {
    match s {
        Some(t) => t,
        None => "Unknown"@,
    }
}

/// The identity that Google's members `name` and `email` stand for: the user
/// name is the mail address.
pub open spec fn google_user_info(name: Option<Seq<char>>, email: Option<Seq<char>>) -> UserInfoView {
    UserInfoView { display_name: or_unknown(name), username: or_unknown(email), email }
}

/// The identity that Microsoft's members `displayName`, `userPrincipalName`
/// and `mail` stand for: the user name is the principal name, which also
/// serves as mail address where `mail` is absent.
pub open spec fn microsoft_user_info(
    display_name: Option<Seq<char>>,
    user_principal_name: Option<Seq<char>>,
    mail: Option<Seq<char>>,
) -> UserInfoView {
    UserInfoView {
        display_name: or_unknown(display_name),
        username: or_unknown(user_principal_name),
        email: if mail is Some {
            mail
        } else {
            user_principal_name
        },
    }
}

/// The identity that a provider's JSON answer stands for.
pub open spec fn user_info_of(provider: Provider, body: Seq<char>) -> UserInfoView {
    match provider {
        Provider::Google => google_user_info(
            json_member_text(body, "name"@),
            json_member_text(body, "email"@),
        ),
        Provider::Microsoft => microsoft_user_info(
            json_member_text(body, "displayName"@),
            json_member_text(body, "userPrincipalName"@),
            json_member_text(body, "mail"@),
        ),
    }
}

/// The reason given when the identity endpoint refused the request.
pub open spec fn identity_failure_reason(status: Seq<char>, body: Seq<char>) -> Seq<char> {
    "Failed to get user info: "@ + status + " - "@ + body
}

/// What the identity endpoint answered: whether the status stands for
/// success, the status as text, and the body.
#[derive(Debug)]
pub struct IdentityResponse {
    pub success: bool,
    pub status: String,
    pub body: String,
}

/// A text, or `Unknown` in its absence.
fn text_or_unknown(s: &Option<String>) -> (r: String)
    ensures
        r@ == or_unknown(opt_text(*s)),
{
    match s {
        Some(t) => t.clone(),
        None => String::from_str("Unknown"),
    }
}

impl UserInfo {
    /// The identity that Google's members `name` and `email` stand for.
    pub fn from_google(name: Option<String>, email: Option<String>) -> (r: UserInfo)
        ensures
            r@ == google_user_info(opt_text(name), opt_text(email)),
    {
        UserInfo {
            display_name: text_or_unknown(&name),
            username: text_or_unknown(&email),
            email,
        }
    }

    /// The identity that Microsoft's members `displayName`,
    /// `userPrincipalName` and `mail` stand for.
    pub fn from_microsoft(
        display_name: Option<String>,
        user_principal_name: Option<String>,
        mail: Option<String>,
    ) -> (r: UserInfo)
        ensures
            r@ == microsoft_user_info(
                opt_text(display_name),
                opt_text(user_principal_name),
                opt_text(mail),
            ),
    {
        let username = text_or_unknown(&user_principal_name);
        let email = if mail.is_some() {
            mail
        } else {
            user_principal_name
        };
        UserInfo { display_name: text_or_unknown(&display_name), username, email }
    }
}

/// Reads the user's identity from the answer of the provider's identity
/// endpoint. An answer whose status does not stand for success fails the
/// sign-in, with the status and the body as the reason; a body that is not
/// JSON fails as a serialization error. Otherwise the identity is what the
/// provider's members stand for.
pub fn read_user_info(provider: &Provider, response: &IdentityResponse) -> (r: Result<
    UserInfo,
    AccountsError,
>)
    ensures
        !response.success ==> (r matches Err(e) && e@ == AccountsErrorView::AuthenticationFailed {
            reason: identity_failure_reason(response.status@, response.body@),
        }),
        response.success && !json_parses(response.body@) ==> (r matches Err(e) && e@
            is Serialization),
        response.success && json_parses(response.body@) ==> (r matches Ok(info) && info@
            == user_info_of(*provider, response.body@)),
{
    if !response.success {
        let reason = String::from_str("Failed to get user info: ").concat(
            response.status.as_str(),
        ).concat(" - ").concat(response.body.as_str());
        return Err(AccountsError::AuthenticationFailed { reason });
    }
    let mut keys: Vec<String> = Vec::new();
    match provider {
        Provider::Google => {
            keys.push(String::from_str("name"));
            keys.push(String::from_str("email"));
        },
        Provider::Microsoft => {
            keys.push(String::from_str("displayName"));
            keys.push(String::from_str("userPrincipalName"));
            keys.push(String::from_str("mail"));
        },
    }
    match json_members(response.body.as_str(), &keys) {
        Err(e) => Err(AccountsError::Serialization(json_error_text(&e))),
        Ok(members) => {
            match provider {
                Provider::Google => {
                    let name = clone_opt_text(&members[0]);
                    let email = clone_opt_text(&members[1]);
                    Ok(UserInfo::from_google(name, email))
                },
                Provider::Microsoft => {
                    let display_name = clone_opt_text(&members[0]);
                    let principal = clone_opt_text(&members[1]);
                    let mail = clone_opt_text(&members[2]);
                    Ok(UserInfo::from_microsoft(display_name, principal, mail))
                },
            }
        },
    }
}

} // verus!
