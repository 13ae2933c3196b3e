//! Builders for the requests handed to the engine: connector creation,
//! anonymous login, and adding a channel session to a session group.
use vstd::prelude::*;
use vstd::string::*;
use crate::channel::{channel_uri_valid, is_valid_channel_uri, plain_channel_uri};
use crate::tokengen::{
    claims_fit, signed_token, token_claims, utf8, TokenError, TokenGenerator, MAX_ENCODED_INPUT,
};

verus! {

/// Key that signs the access tokens of requests.
pub const ACCESS_TOKEN_KEY: &'static str = "get_your_own!";

/// How long an access token stays valid, in seconds.
pub const TOKEN_LIFETIME_SECS: u64 = 120;

/// A request that cannot be built as configured.
#[derive(Clone, Copy, Debug, PartialEq, Eq, Structural)]
pub enum ConfigError {
    /// The channel URI does not name a valid room.
    InvalidChannelUri,
    /// An access token bound to the channel was asked for before its URI was set.
    UriNotSet,
    /// An access token was asked for before the account name was set.
    AccountNameNotSet,
    /// An access token was asked for before the account handle was set.
    AccountHandleNotSet,
    /// The access token could not be produced.
    Token(TokenError),
}

/// The option holds exactly the given text.
pub open spec fn holds_text(o: Option<String>, s: Seq<char>) -> bool {
    o matches Some(v) && v@ == s
}

/// The identity a token speaks for: `sip:<name>@<domain>`.
pub open spec fn audience(name: Seq<char>, domain: Seq<char>) -> Seq<char> {
    "sip:"@ + name + "@"@ + domain
}

/// The claims of an access token issued at `now` for an action.
pub open spec fn access_claims(
    issuer: Seq<char>,
    now: u64,
    action: Seq<char>,
    vxi: u64,
    f: Seq<char>,
    t: Option<Seq<char>>,
) -> Seq<char> {
    token_claims(issuer, (now + TOKEN_LIFETIME_SECS) as u64, action, vxi, f, t)
}

/// Writes `sip:<name>@<domain>`.
fn audience_uri(name: &str, domain: &str) -> (r: String)
    ensures
        r@ == audience(name@, domain@),
{
    let mut s = String::from_str("sip:");
    s.append(name);
    s.append("@");
    s.append(domain);
    s
}

/// A request to create a connector.
#[derive(Debug)]
pub struct ConnectorCreate {
    pub connector_handle: Option<String>,
    pub acct_mgmt_server: Option<String>,
}

/// A finished request, ready to be handed to the engine.
#[derive(Debug)]
pub enum Request {
    ConnectorCreate(ConnectorCreate),
    AnonymousLogin(AnonymousLogin),
    AddSession(AddSession),
}

/// An anonymous login request, configured field by field.
#[derive(Debug)]
pub struct AnonymousLogin {
    pub connector_handle: Option<String>,
    pub acct_mgmt_server: Option<String>,
    pub acct_name: Option<String>,
    pub account_handle: Option<String>,
    pub access_token: Option<String>,
    pub application_override: Option<String>,
    pub application_token: Option<String>,
    pub displayname: Option<String>,
    pub languages: Option<String>,
    pub autopost_crash_dumps: Option<i32>,
    pub enable_buddies_and_presence: Option<i32>,
    pub participant_property_frequency: Option<i32>,
    pub enable_presence_persistence: Option<i32>,
}

impl AnonymousLogin {
    /// A request with no field set.
    pub fn new() -> (r: Self)
        ensures
            r.connector_handle is None,
            r.acct_mgmt_server is None,
            r.acct_name is None,
            r.account_handle is None,
            r.access_token is None,
            r.application_override is None,
            r.application_token is None,
            r.displayname is None,
            r.languages is None,
            r.autopost_crash_dumps is None,
            r.enable_buddies_and_presence is None,
            r.participant_property_frequency is None,
            r.enable_presence_persistence is None,
    {
        AnonymousLogin {
            connector_handle: None,
            acct_mgmt_server: None,
            acct_name: None,
            account_handle: None,
            access_token: None,
            application_override: None,
            application_token: None,
            displayname: None,
            languages: None,
            autopost_crash_dumps: None,
            enable_buddies_and_presence: None,
            participant_property_frequency: None,
            enable_presence_persistence: None,
        }
    }

    /// Sets the account management server.
    pub fn acct_mgmt_server(self, input: &str) -> (r: Self)
        ensures
            r == (AnonymousLogin { acct_mgmt_server: r.acct_mgmt_server, ..self }),
            holds_text(r.acct_mgmt_server, input@),
    {
        AnonymousLogin { acct_mgmt_server: Some(String::from_str(input)), ..self }
    }

    /// Sets the account name, which the access token binds to.
    pub fn acct_name(self, input: &str) -> (r: Self)
        ensures
            r == (AnonymousLogin { acct_name: r.acct_name, ..self }),
            holds_text(r.acct_name, input@),
    {
        AnonymousLogin { acct_name: Some(String::from_str(input)), ..self }
    }

    /// Sets the handle of the account.
    pub fn account_handle(self, input: &str) -> (r: Self)
        ensures
            r == (AnonymousLogin { account_handle: r.account_handle, ..self }),
            holds_text(r.account_handle, input@),
    {
        AnonymousLogin { account_handle: Some(String::from_str(input)), ..self }
    }

    /// Sets the application override.
    pub fn application_override(self, input: &str) -> (r: Self)
        ensures
            r == (AnonymousLogin { application_override: r.application_override, ..self }),
            holds_text(r.application_override, input@),
    {
        AnonymousLogin { application_override: Some(String::from_str(input)), ..self }
    }

    /// Sets the application token.
    pub fn application_token(self, input: &str) -> (r: Self)
        ensures
            r == (AnonymousLogin { application_token: r.application_token, ..self }),
            holds_text(r.application_token, input@),
    {
        AnonymousLogin { application_token: Some(String::from_str(input)), ..self }
    }

    /// Sets the handle of the connector to log in through.
    pub fn connector_handle(self, input: &str) -> (r: Self)
        ensures
            r == (AnonymousLogin { connector_handle: r.connector_handle, ..self }),
            holds_text(r.connector_handle, input@),
    {
        AnonymousLogin { connector_handle: Some(String::from_str(input)), ..self }
    }

    /// Sets the display name.
    pub fn displayname(self, input: &str) -> (r: Self)
        ensures
            r == (AnonymousLogin { displayname: r.displayname, ..self }),
            holds_text(r.displayname, input@),
    {
        AnonymousLogin { displayname: Some(String::from_str(input)), ..self }
    }

    /// Sets the languages.
    pub fn languages(self, input: &str) -> (r: Self)
        ensures
            r == (AnonymousLogin { languages: r.languages, ..self }),
            holds_text(r.languages, input@),
    {
        AnonymousLogin { languages: Some(String::from_str(input)), ..self }
    }

    /// Sets whether crash dumps are posted automatically.
    pub fn autopost_crash_dumps(self, input: i32) -> (r: Self)
        ensures
            r == (AnonymousLogin { autopost_crash_dumps: Some(input), ..self }),
    {
        AnonymousLogin { autopost_crash_dumps: Some(input), ..self }
    }

    /// Sets whether buddies and presence are enabled.
    pub fn enable_social(self, input: i32) -> (r: Self)
        ensures
            r == (AnonymousLogin { enable_buddies_and_presence: Some(input), ..self }),
    {
        AnonymousLogin { enable_buddies_and_presence: Some(input), ..self }
    }

    /// Sets how often participant properties are reported.
    pub fn participant_property_frequency(self, input: i32) -> (r: Self)
        ensures
            r == (AnonymousLogin { participant_property_frequency: Some(input), ..self }),
    {
        AnonymousLogin { participant_property_frequency: Some(input), ..self }
    }

    /// Sets whether presence persists.
    pub fn persist_presence(self, input: i32) -> (r: Self)
        ensures
            r == (AnonymousLogin { enable_presence_persistence: Some(input), ..self }),
    {
        AnonymousLogin { enable_presence_persistence: Some(input), ..self }
    }

    /// Sets a login token issued by `issuer` for `sip:<acct_name>@<domain>`,
    /// expiring `TOKEN_LIFETIME_SECS` after `now`. The account name must be set
    /// first; after that it fails only when the claims are too long to encode.
    /// The generator's counter grows by one exactly when this succeeds.
    pub fn access_token(
        self,
        issuer: &str,
        domain: &str,
        generator: &mut TokenGenerator,
        now: u64,
    ) -> (r: Result<Self, ConfigError>)
        requires
            old(generator).req_index < u64::MAX,
            now <= u64::MAX - TOKEN_LIFETIME_SECS,
        ensures
            self.acct_name is None ==> r == Err::<Self, ConfigError>(ConfigError::AccountNameNotSet),
            r matches Ok(l) ==> {
                &&& l == (AnonymousLogin { access_token: l.access_token, ..self })
                &&& self.acct_name matches Some(name) && holds_text(
                    l.access_token,
                    signed_token(
                        ACCESS_TOKEN_KEY@,
                        access_claims(
                            issuer@,
                            now,
                            "login"@,
                            old(generator).req_index,
                            audience(name@, domain@),
                            None,
                        ),
                    ),
                )
                &&& final(generator).req_index == old(generator).req_index + 1
            },
            self.acct_name matches Some(name) ==> (r is Ok <==> utf8(
                access_claims(
                    issuer@,
                    now,
                    "login"@,
                    old(generator).req_index,
                    audience(name@, domain@),
                    None,
                ),
            ).len() <= MAX_ENCODED_INPUT),
            self.acct_name matches Some(name) ==> (claims_fit(
                issuer@,
                "login"@,
                audience(name@, domain@),
                None,
            ) ==> r is Ok),
            r is Err ==> *final(generator) == *old(generator),
            r matches Err(e) ==> (e == ConfigError::AccountNameNotSet) == (self.acct_name is None),
            r matches Err(e) ==> e is AccountNameNotSet || e == ConfigError::Token(
                TokenError::PayloadTooLarge,
            ),
    {
        let f = match &self.acct_name {
            Some(name) => audience_uri(name.as_str(), domain),
            None => return Err(ConfigError::AccountNameNotSet),
        };
        let token = match generator.generate(
            ACCESS_TOKEN_KEY,
            issuer,
            now + TOKEN_LIFETIME_SECS,
            "login",
            f.as_str(),
            None,
        ) {
            Ok(t) => t,
            Err(e) => return Err(ConfigError::Token(e)),
        };
        Ok(AnonymousLogin { access_token: Some(token), ..self })
    }

    /// Finishes the request.
    pub fn issue(self) -> (r: Request)
        ensures
            r == Request::AnonymousLogin(self),
    {
        Request::AnonymousLogin(self)
    }
}

/// A request to add a channel session to a session group, configured field by
/// field.
#[derive(Debug)]
pub struct AddSession {
    pub sessiongroup_handle: Option<String>,
    pub session_handle: Option<String>,
    pub uri: Option<String>,
    pub account_handle: Option<String>,
    pub access_token: Option<String>,
    pub name: Option<String>,
    pub password: Option<String>,
    pub connect_audio: Option<i32>,
    pub connect_text: Option<i32>,
    pub jitter_compensation: Option<i32>,
    pub password_hash_algorithm: Option<i32>,
    pub session_font_id: Option<i32>,
}

impl AddSession {
    /// A request with no field set.
    pub fn new() -> (r: Self)
        ensures
            r.sessiongroup_handle is None,
            r.session_handle is None,
            r.uri is None,
            r.account_handle is None,
            r.access_token is None,
            r.name is None,
            r.password is None,
            r.connect_audio is None,
            r.connect_text is None,
            r.jitter_compensation is None,
            r.password_hash_algorithm is None,
            r.session_font_id is None,
    {
        AddSession {
            sessiongroup_handle: None,
            session_handle: None,
            uri: None,
            account_handle: None,
            access_token: None,
            name: None,
            password: None,
            connect_audio: None,
            connect_text: None,
            jitter_compensation: None,
            password_hash_algorithm: None,
            session_font_id: None,
        }
    }

    /// Sets the handle of the account, which the access token binds to.
    pub fn account_handle(self, input: &str) -> (r: Self)
        ensures
            r == (AddSession { account_handle: r.account_handle, ..self }),
            holds_text(r.account_handle, input@),
    {
        AddSession { account_handle: Some(String::from_str(input)), ..self }
    }

    /// Sets the session name.
    pub fn name(self, input: &str) -> (r: Self)
        ensures
            r == (AddSession { name: r.name, ..self }),
            holds_text(r.name, input@),
    {
        AddSession { name: Some(String::from_str(input)), ..self }
    }

    /// Sets the channel password.
    pub fn password(self, input: &str) -> (r: Self)
        ensures
            r == (AddSession { password: r.password, ..self }),
            holds_text(r.password, input@),
    {
        AddSession { password: Some(String::from_str(input)), ..self }
    }

    /// Sets the handle of the new session.
    pub fn session_handle(self, input: &str) -> (r: Self)
        ensures
            r == (AddSession { session_handle: r.session_handle, ..self }),
            holds_text(r.session_handle, input@),
    {
        AddSession { session_handle: Some(String::from_str(input)), ..self }
    }

    /// Sets the handle of the session group.
    pub fn sessiongroup_handle(self, input: &str) -> (r: Self)
        ensures
            r == (AddSession { sessiongroup_handle: r.sessiongroup_handle, ..self }),
            holds_text(r.sessiongroup_handle, input@),
    {
        AddSession { sessiongroup_handle: Some(String::from_str(input)), ..self }
    }

    /// Sets whether audio is connected.
    pub fn connect_audio(self, input: i32) -> (r: Self)
        ensures
            r == (AddSession { connect_audio: Some(input), ..self }),
    {
        AddSession { connect_audio: Some(input), ..self }
    }

    /// Sets whether text is connected.
    pub fn connect_text(self, input: i32) -> (r: Self)
        ensures
            r == (AddSession { connect_text: Some(input), ..self }),
    {
        AddSession { connect_text: Some(input), ..self }
    }

    /// Sets the jitter compensation.
    pub fn jitter_compensation(self, input: i32) -> (r: Self)
        ensures
            r == (AddSession { jitter_compensation: Some(input), ..self }),
    {
        AddSession { jitter_compensation: Some(input), ..self }
    }

    /// Sets the hash algorithm of the password.
    pub fn password_hash_algorithm(self, input: i32) -> (r: Self)
        ensures
            r == (AddSession { password_hash_algorithm: Some(input), ..self }),
    {
        AddSession { password_hash_algorithm: Some(input), ..self }
    }

    /// Sets the voice font of the session.
    pub fn session_font_id(self, input: i32) -> (r: Self)
        ensures
            r == (AddSession { session_font_id: Some(input), ..self }),
    {
        AddSession { session_font_id: Some(input), ..self }
    }

    /// Sets the channel URI once it is valid (see `is_valid_channel_uri`); an
    /// invalid URI is refused and nothing is stored.
    pub fn uri(self, input: &str) -> (r: Result<Self, ConfigError>)
        ensures
            r is Ok <==> channel_uri_valid(input@),
            plain_channel_uri(input@) ==> r is Ok,
            r matches Ok(s) ==> s == (AddSession { uri: s.uri, ..self }) && holds_text(
                s.uri,
                input@,
            ),
            r matches Err(e) ==> e == ConfigError::InvalidChannelUri,
    {
        if !is_valid_channel_uri(input) {
            return Err(ConfigError::InvalidChannelUri);
        }
        Ok(AddSession { uri: Some(String::from_str(input)), ..self })
    }

    /// Sets a join token issued by `issuer` for `sip:<account_handle>@<domain>`,
    /// bound to the channel URI and expiring `TOKEN_LIFETIME_SECS` after `now`.
    /// The URI and then the account handle must be set first; after that it
    /// fails only when the claims are too long to encode. The generator's
    /// counter grows by one exactly when this succeeds.
    pub fn access_token(
        self,
        issuer: &str,
        domain: &str,
        generator: &mut TokenGenerator,
        now: u64,
    ) -> (r: Result<Self, ConfigError>)
        requires
            old(generator).req_index < u64::MAX,
            now <= u64::MAX - TOKEN_LIFETIME_SECS,
        ensures
            self.uri is None ==> r == Err::<Self, ConfigError>(ConfigError::UriNotSet),
            self.uri is Some && self.account_handle is None ==> r == Err::<Self, ConfigError>(
                ConfigError::AccountHandleNotSet,
            ),
            r matches Ok(s) ==> {
                &&& s == (AddSession { access_token: s.access_token, ..self })
                &&& self.uri matches Some(uri) && self.account_handle matches Some(handle)
                    && holds_text(
                    s.access_token,
                    signed_token(
                        ACCESS_TOKEN_KEY@,
                        access_claims(
                            issuer@,
                            now,
                            "join"@,
                            old(generator).req_index,
                            audience(handle@, domain@),
                            Some(uri@),
                        ),
                    ),
                )
                &&& final(generator).req_index == old(generator).req_index + 1
            },
            self.uri matches Some(uri) ==> (self.account_handle matches Some(handle) ==> (r is Ok
                <==> utf8(
                access_claims(
                    issuer@,
                    now,
                    "join"@,
                    old(generator).req_index,
                    audience(handle@, domain@),
                    Some(uri@),
                ),
            ).len() <= MAX_ENCODED_INPUT)),
            self.uri matches Some(uri) ==> (self.account_handle matches Some(handle) ==> (
            claims_fit(issuer@, "join"@, audience(handle@, domain@), Some(uri@)) ==> r is Ok)),
            r is Err ==> *final(generator) == *old(generator),
            r matches Err(e) ==> e is UriNotSet || e is AccountHandleNotSet || e
                == ConfigError::Token(TokenError::PayloadTooLarge),
            self.uri is Some && self.account_handle is Some && r is Err ==> r->Err_0
                == ConfigError::Token(TokenError::PayloadTooLarge),
    {
        let uri = match &self.uri {
            Some(u) => u.clone(),
            None => return Err(ConfigError::UriNotSet),
        };
        let f = match &self.account_handle {
            Some(handle) => audience_uri(handle.as_str(), domain),
            None => return Err(ConfigError::AccountHandleNotSet),
        };
        let token = match generator.generate(
            ACCESS_TOKEN_KEY,
            issuer,
            now + TOKEN_LIFETIME_SECS,
            "join",
            f.as_str(),
            Some(uri),
        ) {
            Ok(t) => t,
            Err(e) => return Err(ConfigError::Token(e)),
        };
        Ok(AddSession { access_token: Some(token), ..self })
    }

    /// Finishes the request.
    pub fn issue(self) -> (r: Request)
        ensures
            r == Request::AddSession(self),
    {
        Request::AddSession(self)
    }
}

} // verus!
