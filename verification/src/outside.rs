//! The calls into other crates, each behind a contract that is taken on trust.
//! Nothing in this file is proved: each comment says what is claimed of the
//! function that is called.

use oauth2::basic::BasicClient;
use oauth2::{
    AuthUrl, ClientId, CsrfToken, PkceCodeChallenge, PkceCodeVerifier, RedirectUrl, Scope,
};
use vstd::prelude::*;
use crate::provider::ProviderConfig;
use crate::text::{byte_len, holds_text, opt_text, texts};
use crate::time::Timestamp;

verus! {

/// The failure that `uuid::Uuid::parse_str` reports.
#[verifier::external_type_specification]
#[verifier::external_body]
pub struct ExUuidError(uuid::Error);

/// The failure that `serde_json::from_str` reports.
#[verifier::external_type_specification]
#[verifier::external_body]
pub struct ExJsonError(serde_json::Error);

/// The failure that `url::Url::parse` reports.
#[verifier::external_type_specification]
#[verifier::external_body]
pub struct ExUrlParseError(url::ParseError);

/// The text that `uuid::Uuid` displays for the identifier with this 128-bit
/// value.
pub uninterp spec fn uuid_text(id: u128) -> Seq<char>;

/// The 128-bit value of the identifier that `uuid::Uuid::parse_str` reads from
/// a text, or `None` where it rejects the text.
pub uninterp spec fn uuid_of_text(s: Seq<char>) -> Option<u128>;

/// Whether `url::Url::parse` accepts a text.
pub uninterp spec fn url_parses(s: Seq<char>) -> bool;

/// Whether `serde_json::from_str` reads a text as a JSON value.
pub uninterp spec fn json_parses(doc: Seq<char>) -> bool;

/// The string that a JSON document holds under a key: what `as_str` gives for
/// the document indexed by the key. `None` where the document is no object,
/// lacks the key, or holds under it something other than a string.
pub uninterp spec fn json_member_text(doc: Seq<char>, key: Seq<char>) -> Option<Seq<char>>;

/// The text that `chrono::DateTime<Utc>` displays for a point in time, or
/// `None` where chrono cannot represent the point.
pub uninterp spec fn datetime_text(secs: int, nanos: int) -> Option<Seq<char>>;

/// The point in time, as seconds and nanoseconds, that
/// `chrono::DateTime<Utc>` reads from a text, or `None` where it rejects the
/// text.
pub uninterp spec fn datetime_of_text(s: Seq<char>) -> Option<(int, int)>;

/// The address that the `oauth2` crate builds for an authorization request
/// with a SHA-256 PKCE challenge derived from the verifier.
pub uninterp spec fn authorization_url(
    auth_url: Seq<char>,
    client_id: Seq<char>,
    redirect_uri: Seq<char>,
    scopes: Seq<Seq<char>>,
    extra_names: Seq<Seq<char>>,
    extra_values: Seq<Seq<char>>,
    state: Seq<char>,
    verifier: Seq<char>,
) -> Seq<char>;

/// The lowercase form of a text, as `str::to_lowercase` computes it.
pub uninterp spec fn lowercase(s: Seq<char>) -> Seq<char>;

/// `str::to_lowercase` maps each character to its Unicode lowercase form; the
/// result is a function of the input alone and is known here only by name.
pub assume_specification[ str::to_lowercase ](s: &str) -> (r: String)
    ensures
        r@ == lowercase(s@),
;

/// `str::contains` with a string pattern: whether the pattern matches some
/// stretch of the text.
#[verifier::external_body]
pub(crate) fn contains_text(s: &str, pattern: &str) -> (r: bool)
    ensures
        r == holds_text(s@, pattern@),
{
    s.contains(pattern)
}

/// What `str::replace` gives for a text, a pattern text and a replacement.
pub uninterp spec fn replaced(s: Seq<char>, from: Seq<char>, to: Seq<char>) -> Seq<char>;

/// `str::replace` with a string pattern: every match of the pattern, found
/// from left to right without overlap, gives way to the replacement. The
/// result depends on the three texts alone.
#[verifier::external_body]
pub(crate) fn replace_text(s: &str, from: &str, to: &str) -> (r: String)
    ensures
        r@ == replaced(s@, from@, to@),
{
    s.replace(from, to)
}

/// `uuid::Uuid::new_v4`: a random identifier. Whatever the random bits, the
/// version field holds 4 and the variant field holds the two bits 1 and 0.
#[verifier::external_body]
pub(crate) fn new_uuid() -> (r: u128)
    ensures
        r & 0x0000_0000_0000_f000_c000_0000_0000_0000u128
            == 0x0000_0000_0000_4000_8000_0000_0000_0000u128,
{
    uuid::Uuid::new_v4().as_u128()
}

/// `uuid::Uuid::parse_str`: reads an identifier from its text. The result
/// depends on the text alone.
#[verifier::external_body]
pub(crate) fn parse_uuid(s: &str) -> (r: Result<u128, uuid::Error>)
    ensures
        r matches Ok(v) ==> uuid_of_text(s@) == Some(v),
        r is Err ==> uuid_of_text(s@) is None,
{
    uuid::Uuid::parse_str(s).map(|u| u.as_u128())
}

/// The `Display` text of `uuid::Uuid`. The result depends on the identifier
/// alone.
#[verifier::external_body]
pub(crate) fn uuid_to_text(id: u128) -> (r: String)
    ensures
        r@ == uuid_text(id),
{
    uuid::Uuid::from_u128(id).to_string()
}

/// The `Display` text of `uuid::Error`. Nothing is claimed of it.
#[verifier::external_body]
pub(crate) fn uuid_error_text(e: &uuid::Error) -> (r: String) {
    e.to_string()
}

/// `url::Url::parse`, which the `oauth2` crate applies to every address it is
/// given. Whether it accepts depends on the text alone.
#[verifier::external_body]
pub(crate) fn check_url(s: &str) -> (r: Result<(), url::ParseError>)
    ensures
        r is Ok <==> url_parses(s@),
{
    url::Url::parse(s).map(|_| ())
}

/// The `Display` text of `url::ParseError`. Nothing is claimed of it.
#[verifier::external_body]
pub(crate) fn url_error_text(e: &url::ParseError) -> (r: String) {
    e.to_string()
}

/// `serde_json::from_str` into a `serde_json::Value`, then, for each key, the
/// value indexed by the key and `as_str` of that. Fails exactly where the text
/// is not JSON; otherwise gives one result for each key, in order.
#[verifier::external_body]
pub(crate) fn json_members(doc: &str, keys: &Vec<String>) -> (r: Result<
    Vec<Option<String>>,
    serde_json::Error,
>)
    ensures
        r is Ok <==> json_parses(doc@),
        r matches Ok(v) ==> v.len() == keys.len() && forall|i: int|
            0 <= i < keys.len() ==> opt_text(#[trigger] v[i]) == json_member_text(doc@, keys[i]@),
{
    let value: serde_json::Value = serde_json::from_str(doc)?;
    Ok(keys.iter().map(|k| value[k.as_str()].as_str().map(|s| s.to_string())).collect())
}

/// The `Display` text of `serde_json::Error`. Nothing is claimed of it.
#[verifier::external_body]
pub(crate) fn json_error_text(e: &serde_json::Error) -> (r: String) {
    e.to_string()
}

/// `chrono::Utc::now`: the current time, read from the system clock. Nothing is
/// claimed of it.
#[verifier::external_body]
pub(crate) fn utc_now() -> (r: Timestamp) {
    let now = chrono::Utc::now();
    Timestamp { secs: now.timestamp(), nanos: now.timestamp_subsec_nanos() }
}

/// `chrono::DateTime::from_timestamp` and the `Display` text of its result.
/// The result depends on the seconds and nanoseconds alone.
#[verifier::external_body]
pub(crate) fn timestamp_to_text(t: Timestamp) -> (r: Option<String>)
    ensures
        opt_text(r) == datetime_text(t.secs as int, t.nanos as int),
{
    chrono::DateTime::from_timestamp(t.secs, t.nanos).map(|d| d.to_string())
}

/// `FromStr` of `chrono::DateTime<Utc>`, and the seconds and nanoseconds of
/// its result. The result depends on the text alone.
#[verifier::external_body]
pub(crate) fn timestamp_of_text(s: &str) -> (r: Option<Timestamp>)
    ensures
        r matches Some(t) ==> datetime_of_text(s@) == Some((t.secs as int, t.nanos as int)),
        r is None ==> datetime_of_text(s@) is None,
{
    s.parse::<chrono::DateTime<chrono::Utc>>().ok().map(
        |d| Timestamp { secs: d.timestamp(), nanos: d.timestamp_subsec_nanos() },
    )
}

/// `oauth2::CsrfToken::new_random`: 16 random bytes in URL-safe base64 without
/// padding, which is 22 characters.
#[verifier::external_body]
pub(crate) fn random_state_token() -> (r: String)
    ensures
        r@.len() == 22,
{
    CsrfToken::new_random().secret().clone()
}

/// The verifier of `oauth2::PkceCodeChallenge::new_random_sha256`: 32 random
/// bytes in URL-safe base64 without padding, which is 43 bytes of text.
#[verifier::external_body]
pub(crate) fn random_pkce_verifier() -> (r: String)
    ensures
        byte_len(r@) == 43,
{
    PkceCodeChallenge::new_random_sha256().1.secret().clone()
}

/// The address of an `oauth2` authorization request: a client made of the
/// client identifier, the authorization address and the redirect address; the
/// state token; the SHA-256 challenge of the verifier; the scopes; the extra
/// parameters. The crate refuses a verifier of fewer than 43 or more than 128
/// bytes and addresses that do not parse, so those are left out. The result
/// depends on the arguments alone.
#[verifier::external_body]
pub(crate) fn build_authorization_url(
    config: &ProviderConfig,
    extra_names: &Vec<String>,
    extra_values: &Vec<String>,
    state: &String,
    verifier: &String,
) -> (r: String)
    requires
        url_parses(config.auth_url@),
        url_parses(config.redirect_uri@),
        43 <= byte_len(verifier@) <= 128,
        extra_names.len() == extra_values.len(),
    ensures
        r@ == authorization_url(
            config.auth_url@,
            config.client_id@,
            config.redirect_uri@,
            texts(config.scopes@),
            texts(extra_names@),
            texts(extra_values@),
            state@,
            verifier@,
        ),
{
    let auth = AuthUrl::new(config.auth_url.clone()).unwrap();
    let redirect = RedirectUrl::new(config.redirect_uri.clone()).unwrap();
    let client = BasicClient::new(ClientId::new(config.client_id.clone()), None, auth, None)
        .set_redirect_uri(redirect);
    let challenge = PkceCodeChallenge::from_code_verifier_sha256(
        &PkceCodeVerifier::new(verifier.clone()),
    );
    let request = client.authorize_url(|| CsrfToken::new(state.clone()))
        .set_pkce_challenge(challenge)
        .add_scopes(config.scopes.iter().cloned().map(Scope::new));
    let pairs = extra_names.iter().zip(extra_values);
    pairs.fold(request, |r, p| r.add_extra_param(p.0.clone(), p.1.clone())).url().0.to_string()
}

} // verus!
