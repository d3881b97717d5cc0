//! Identity providers and their sign-in endpoint settings.

use vstd::prelude::*;
use vstd::string::StringExecFns;
use crate::capability::{Capability, CapabilityMap};
use crate::outside::lowercase;
use crate::text::{clone_texts, same_text, same_texts, texts};

verus! {

/// A supported identity provider.
#[derive(Debug, Clone, Copy, PartialEq, Eq, Hash, Structural)]
pub enum Provider {
    Google,
    Microsoft,
}

/// The provider that a name written in lowercase stands for, if any.
pub open spec fn provider_of_lowercase(name: Seq<char>) -> Option<Provider> {
    if name == "google"@ {
        Some(Provider::Google)
    } else if name == "microsoft"@ {
        Some(Provider::Microsoft)
    } else {
        None
    }
}

impl Provider {
    /// The provider's display name.
    pub open spec fn label(self) -> Seq<char> {
        match self {
            Provider::Google => "Google"@,
            Provider::Microsoft => "Microsoft"@,
        }
    }

    /// The name of the file that holds the provider's endpoint settings.
    pub open spec fn spec_file_name(self) -> Seq<char> {
        match self {
            Provider::Google => "google.toml"@,
            Provider::Microsoft => "microsoft.toml"@,
        }
    }

    /// The address of the provider's identity endpoint.
    pub open spec fn spec_user_info_url(self) -> Seq<char> {
        match self {
            Provider::Google => "https://www.googleapis.com/oauth2/v2/userinfo"@,
            Provider::Microsoft => "https://graph.microsoft.com/v1.0/me"@,
        }
    }

    /// The capability switches that a fresh account of this provider starts
    /// with: mail and calendar, both switched off.
    pub open spec fn spec_services(self) -> Map<Capability, bool> {
        map![Capability::Email => false, Capability::Calendar => false]
    }

    /// The table of capability switches that a fresh account of this provider
    /// starts with.
    pub open spec fn initial_switches(self) -> CapabilityMap {
        CapabilityMap { email: Some(false), calendar: Some(false), contacts: None, todo: None }
    }

    /// The capabilities that the provider can offer.
    pub open spec fn spec_default_capabilities(self) -> Seq<Capability> {
        seq![Capability::Email, Capability::Calendar, Capability::Contacts, Capability::Todo]
    }

    /// The parameters added to the authorization address beyond the standard
    /// ones, as names and values: Google is asked for offline access, so that
    /// it issues a refresh token.
    pub open spec fn spec_extra_auth_params(self) -> Seq<(Seq<char>, Seq<char>)> {
        match self {
            Provider::Google => seq![("access_type"@, "offline"@)],
            Provider::Microsoft => Seq::empty(),
        }
    }

    /// Reads a provider from its name, whatever the case of its letters.
    pub fn from_str(s: &str) -> (r: Option<Provider>)
        ensures
            r == provider_of_lowercase(lowercase(s@)),
    {
        let lower = s.to_lowercase();
        Provider::from_lowercase(lower.as_str())
    }

    /// Reads a provider from its name written in lowercase.
    pub fn from_lowercase(name: &str) -> (r: Option<Provider>)
        ensures
            r == provider_of_lowercase(name@),
    {
        if same_text(name, "google") {
            Some(Provider::Google)
        } else if same_text(name, "microsoft") {
            Some(Provider::Microsoft)
        } else {
            None
        }
    }

    /// Every supported provider.
    pub fn list() -> (r: [Provider; 2])
        ensures
            r@ == seq![Provider::Google, Provider::Microsoft],
    {
        [Provider::Google, Provider::Microsoft]
    }

    /// The name of the file that holds the provider's endpoint settings.
    pub fn file_name(&self) -> (r: &'static str)
        ensures
            r@ == self.spec_file_name(),
    {
        match self {
            Provider::Google => "google.toml",
            Provider::Microsoft => "microsoft.toml",
        }
    }

    /// The provider's display name.
    pub fn display_name(&self) -> (r: &'static str)
        ensures
            r@ == self.label(),
    {
        match self {
            Provider::Google => "Google",
            Provider::Microsoft => "Microsoft",
        }
    }

    /// The provider's display name as an owned string.
    pub fn to_string(&self) -> (r: String)
        ensures
            r@ == self.label(),
    {
        String::from_str(self.display_name())
    }

    /// The address of the provider's identity endpoint.
    pub fn user_info_url(&self) -> (r: &'static str)
        ensures
            r@ == self.spec_user_info_url(),
    {
        match self {
            Provider::Google => "https://www.googleapis.com/oauth2/v2/userinfo",
            Provider::Microsoft => "https://graph.microsoft.com/v1.0/me",
        }
    }

    /// The capability switches that a fresh account of this provider starts with.
    pub fn services(&self) -> (r: CapabilityMap)
        ensures
            r == self.initial_switches(),
            r@ == self.spec_services(),
    {
        let r = CapabilityMap { email: Some(false), calendar: Some(false), contacts: None, todo: None };
        assert(r@ =~= self.spec_services());
        r
    }

    /// The capabilities that the provider can offer.
    pub fn default_capabilities(&self) -> (r: Vec<Capability>)
        ensures
            r@ == self.spec_default_capabilities(),
    {
        let r = vec![Capability::Email, Capability::Calendar, Capability::Contacts, Capability::Todo];
        assert(r@ =~= self.spec_default_capabilities());
        r
    }

    /// The names of the extra parameters, in order.
    pub open spec fn extra_names(self) -> Seq<Seq<char>> {
        self.spec_extra_auth_params().map_values(|p: (Seq<char>, Seq<char>)| p.0)
    }

    /// The values of the extra parameters, in order.
    pub open spec fn extra_values(self) -> Seq<Seq<char>> {
        self.spec_extra_auth_params().map_values(|p: (Seq<char>, Seq<char>)| p.1)
    }

    /// The names of the parameters added to the authorization address beyond
    /// the standard ones, and their values, in matching order.
    pub fn extra_auth_params(&self) -> (r: (Vec<String>, Vec<String>))
        ensures
            texts(r.0@) == self.extra_names(),
            texts(r.1@) == self.extra_values(),
            r.0.len() == r.1.len(),
    {
        let mut names: Vec<String> = Vec::new();
        let mut values: Vec<String> = Vec::new();
        match self {
            Provider::Google => {
                names.push(String::from_str("access_type"));
                values.push(String::from_str("offline"));
            },
            Provider::Microsoft => {},
        }
        assert(texts(names@) =~= self.spec_extra_auth_params().map_values(
            |p: (Seq<char>, Seq<char>)| p.0,
        ));
        assert(texts(values@) =~= self.spec_extra_auth_params().map_values(
            |p: (Seq<char>, Seq<char>)| p.1,
        ));
        (names, values)
    }
}

/// Every capability that a fresh account starts with is one that its provider
/// can offer.
pub proof fn lemma_services_are_offered(p: Provider, c: Capability)
    requires
        p.spec_services().contains_key(c),
    ensures
        p.spec_default_capabilities().contains(c),
{
    let s = p.spec_default_capabilities();
    assert(s[0] == Capability::Email);
    assert(s[1] == Capability::Calendar);
}

/// What a provider's endpoint settings hold.
pub struct ProviderConfigView {
    pub client_id: Seq<char>,
    pub client_secret: Seq<char>,
    pub auth_url: Seq<char>,
    pub token_url: Seq<char>,
    pub redirect_uri: Seq<char>,
    pub scopes: Seq<Seq<char>>,
}

/// A provider's endpoint settings: the client's credentials, the authorization
/// and token addresses, the redirect address and the scopes to ask for.
#[derive(Debug)]
pub struct ProviderConfig {
    pub client_id: String,
    pub client_secret: String,
    pub auth_url: String,
    pub token_url: String,
    pub redirect_uri: String,
    pub scopes: Vec<String>,
}

impl View for ProviderConfig {
    type V = ProviderConfigView;

    open spec fn view(&self) -> ProviderConfigView {
        ProviderConfigView {
            client_id: self.client_id@,
            client_secret: self.client_secret@,
            auth_url: self.auth_url@,
            token_url: self.token_url@,
            redirect_uri: self.redirect_uri@,
            scopes: texts(self.scopes@),
        }
    }
}

impl Clone for ProviderConfig {
    fn clone(&self) -> (r: Self)
        ensures
            r@ == self@,
    {
        ProviderConfig {
            client_id: self.client_id.clone(),
            client_secret: self.client_secret.clone(),
            auth_url: self.auth_url.clone(),
            token_url: self.token_url.clone(),
            redirect_uri: self.redirect_uri.clone(),
            scopes: clone_texts(&self.scopes),
        }
    }
}

impl PartialEq for ProviderConfig {
    fn eq(&self, other: &Self) -> (r: bool) {
        self.client_id == other.client_id && self.client_secret == other.client_secret
            && self.auth_url == other.auth_url && self.token_url == other.token_url
            && self.redirect_uri == other.redirect_uri && same_texts(&self.scopes, &other.scopes)
    }
}

impl vstd::std_specs::cmp::PartialEqSpecImpl for ProviderConfig {
    open spec fn obeys_eq_spec() -> bool {
        true
    }

    open spec fn eq_spec(&self, other: &Self) -> bool {
        self@ == other@
    }
}

/// The section of a provider's settings file that holds its endpoint settings.
#[derive(Debug)]
pub struct AccountProvider {
    pub client_id: String,
    pub client_secret: String,
    pub auth_url: String,
    pub token_url: String,
    pub redirect_uri: String,
    pub scopes: Vec<String>,
}

impl View for AccountProvider {
    type V = ProviderConfigView;

    open spec fn view(&self) -> ProviderConfigView {
        ProviderConfigView {
            client_id: self.client_id@,
            client_secret: self.client_secret@,
            auth_url: self.auth_url@,
            token_url: self.token_url@,
            redirect_uri: self.redirect_uri@,
            scopes: texts(self.scopes@),
        }
    }
}

/// A provider's settings file: one section named `provider`.
#[derive(Debug)]
pub struct AccountProviderConfig {
    pub provider: AccountProvider,
}

impl AccountProviderConfig {
    /// The endpoint settings that the file holds, field for field.
    pub fn into_config(self) -> (r: ProviderConfig)
        ensures
            r@ == self.provider@,
    {
        ProviderConfig {
            client_id: self.provider.client_id,
            client_secret: self.provider.client_secret,
            auth_url: self.provider.auth_url,
            token_url: self.provider.token_url,
            redirect_uri: self.provider.redirect_uri,
            scopes: self.provider.scopes,
        }
    }
}

/// The endpoint settings of the providers that were configured at startup.
#[derive(Debug)]
pub struct ProviderRegistry {
    pub google: Option<ProviderConfig>,
    pub microsoft: Option<ProviderConfig>,
}

impl View for ProviderRegistry {
    type V = Map<Provider, ProviderConfigView>;

    open spec fn view(&self) -> Map<Provider, ProviderConfigView> {
        Map::new(|p: Provider| self.slot(p) is Some, |p: Provider| self.slot(p).unwrap()@)
    }
}

impl ProviderRegistry {
    /// The settings of one provider.
    pub open spec fn slot(self, p: Provider) -> Option<ProviderConfig> {
        match p {
            Provider::Google => self.google,
            Provider::Microsoft => self.microsoft,
        }
    }

    /// The registry without any provider.
    pub fn new() -> (r: ProviderRegistry)
        ensures
            r@ == Map::<Provider, ProviderConfigView>::empty(),
    {
        let r = ProviderRegistry { google: None, microsoft: None };
        assert(r@ =~= Map::<Provider, ProviderConfigView>::empty());
        r
    }

    /// Records the settings of a provider, in place of any it had.
    pub fn insert(&mut self, provider: Provider, config: ProviderConfig)
        ensures
            final(self)@ == old(self)@.insert(provider, config@),
    {
        match provider {
            Provider::Google => {
                self.google = Some(config);
            },
            Provider::Microsoft => {
                self.microsoft = Some(config);
            },
        }
        assert(self@ =~= old(self)@.insert(provider, config@));
    }

    /// The settings of a provider, if it was configured.
    pub fn get(&self, provider: Provider) -> (r: Option<&ProviderConfig>)
        ensures
            r is Some <==> self@.contains_key(provider),
            r is Some ==> r.unwrap()@ == self@[provider],
    {
        match provider {
            Provider::Google => self.google.as_ref(),
            Provider::Microsoft => self.microsoft.as_ref(),
        }
    }

    /// Whether the provider was configured.
    pub fn contains(&self, provider: Provider) -> (r: bool)
        ensures
            r == self@.contains_key(provider),
    {
        self.get(provider).is_some()
    }
}

} // verus!
