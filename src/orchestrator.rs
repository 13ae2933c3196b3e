//! The one-shot bootstrap sequence: initialise the engine, start polling,
//! create a connector, log in, join a channel.
use vstd::prelude::*;
use vstd::string::*;
use crate::channel::{allowed_punctuation, ascii_alphanumeric, is_first_index, plain_channel_uri, plain_room};
use crate::request::{
    access_claims, audience, holds_text, AddSession, AnonymousLogin, ConfigError, ConnectorCreate,
    Request, ACCESS_TOKEN_KEY, TOKEN_LIFETIME_SECS,
};
use crate::session::SessionState;
use crate::tokengen::{claims_fit, signed_token, TokenGenerator};

verus! {

/// Where the bootstrap sequence stands.
#[derive(Clone, Copy, Debug, PartialEq, Eq, Structural)]
pub enum Stage {
    Uninitialized,
    Initialized,
    PollingStarted,
    ConnectorRequested,
    Connected,
    LoginRequested,
    LoggedIn,
    ChannelJoinRequested,
    Joined,
}

/// What the driver of the sequence does next.
#[derive(Clone, Copy, Debug, PartialEq, Eq, Structural)]
pub enum Action {
    InitializeEngine,
    StartPolling,
    CreateConnector,
    Login,
    JoinChannel,
    /// Nothing to do until the session state changes.
    Wait,
    /// Move on at once: the stage advanced without a request.
    Continue,
    /// The sequence is complete.
    Finished,
}

/// Position of a stage in the sequence.
pub open spec fn rank(s: Stage) -> nat {
    match s {
        Stage::Uninitialized => 0,
        Stage::Initialized => 1,
        Stage::PollingStarted => 2,
        Stage::ConnectorRequested => 3,
        Stage::Connected => 4,
        Stage::LoginRequested => 5,
        Stage::LoggedIn => 6,
        Stage::ChannelJoinRequested => 7,
        Stage::Joined => 8,
    }
}

/// The transition table of the sequence.
pub open spec fn spec_next_step(stage: Stage, session: SessionState) -> (Stage, Action) {
    match stage {
        Stage::Uninitialized => (Stage::Initialized, Action::InitializeEngine),
        Stage::Initialized => (Stage::PollingStarted, Action::StartPolling),
        Stage::PollingStarted => (Stage::ConnectorRequested, Action::CreateConnector),
        Stage::ConnectorRequested => if session.connector_connected {
            (Stage::Connected, Action::Continue)
        } else {
            (Stage::ConnectorRequested, Action::Wait)
        },
        Stage::Connected => (Stage::LoginRequested, Action::Login),
        Stage::LoginRequested => if session.logged_in {
            (Stage::LoggedIn, Action::Continue)
        } else {
            (Stage::LoginRequested, Action::Wait)
        },
        Stage::LoggedIn => (Stage::ChannelJoinRequested, Action::JoinChannel),
        Stage::ChannelJoinRequested => (Stage::Joined, Action::Finished),
        Stage::Joined => (Stage::Joined, Action::Finished),
    }
}

/// Decides the next action and the stage it leads to. Stages are never
/// revisited and advance one at a time; the connector and login stages are
/// only left once the session state shows the awaited flag.
pub fn next_step(stage: Stage, session: &SessionState) -> (r: (Stage, Action))
    ensures
        r == spec_next_step(stage, *session),
        rank(stage) <= rank(r.0) <= rank(stage) + 1,
        rank(r.0) > rank(Stage::ConnectorRequested) ==> session.connector_connected
            || rank(stage) > rank(Stage::ConnectorRequested),
        rank(r.0) > rank(Stage::LoginRequested) ==> session.logged_in || rank(stage) > rank(
            Stage::LoginRequested,
        ),
        stage == Stage::ConnectorRequested && !session.connector_connected ==> r == (
            Stage::ConnectorRequested,
            Action::Wait,
        ),
{
    match stage {
        Stage::Uninitialized => (Stage::Initialized, Action::InitializeEngine),
        Stage::Initialized => (Stage::PollingStarted, Action::StartPolling),
        Stage::PollingStarted => (Stage::ConnectorRequested, Action::CreateConnector),
        Stage::ConnectorRequested => {
            if session.connector_connected {
                (Stage::Connected, Action::Continue)
            } else {
                (Stage::ConnectorRequested, Action::Wait)
            }
        },
        Stage::Connected => (Stage::LoginRequested, Action::Login),
        Stage::LoginRequested => {
            if session.logged_in {
                (Stage::LoggedIn, Action::Continue)
            } else {
                (Stage::LoginRequested, Action::Wait)
            }
        },
        Stage::LoggedIn => (Stage::ChannelJoinRequested, Action::JoinChannel),
        Stage::ChannelJoinRequested => (Stage::Joined, Action::Finished),
        Stage::Joined => (Stage::Joined, Action::Finished),
    }
}

/// Handle of the connector that the sequence creates.
pub const CONNECTOR_HANDLE: &'static str = "c1";

/// Account management server the connector talks to.
pub const ACCOUNT_SERVER: &'static str = "https://vdx5.www.vivox.com/api2";

/// Account that the sequence logs in as.
pub const ECHO_ACCOUNT: &'static str = ".gmclvivox-gmvivox-w-dev.dunkel.";

/// Display name of that account.
pub const ECHO_DISPLAY_NAME: &'static str = "Dunkel";

/// Issuer of the sequence's access tokens.
pub const ECHO_ISSUER: &'static str = "gmclvivox-gmvivox-w-dev";

/// Domain of the sequence's identities.
pub const ECHO_DOMAIN: &'static str = "vdx5.vivox.com";

/// Session group that the echo channel joins.
pub const ECHO_SESSION_GROUP: &'static str = "sg1";

/// Handle of the echo channel session.
pub const ECHO_SESSION: &'static str = "echotest";

/// URI of the echo channel.
pub const ECHO_CHANNEL_URI: &'static str =
    "sip:confctl-e-gmclvivox-gmvivox-w-dev.echotest@vdx5.vivox.com";

/// The echo channel's room name is plain: it sits between the `:` at 3 and
/// the `@` at 46 and holds only letters, digits, `-` and `.`.
proof fn lemma_echo_uri_plain()
    ensures
        plain_channel_uri(ECHO_CHANNEL_URI@),
{
    reveal_strlit("sip:confctl-e-gmclvivox-gmvivox-w-dev.echotest@vdx5.vivox.com");
    let u = ECHO_CHANNEL_URI@;
    assert(is_first_index(u, ':', 3));
    assert(is_first_index(u, '@', 46));
    let room = u.subrange(4, 46);
    assert forall|i: int| 0 <= i < room.len() implies ascii_alphanumeric(room[i])
        || allowed_punctuation(room[i]) by {
        assert(room[i] == u[i + 4]);
    }
    assert(plain_room(room));
}

/// The request that creates the connector.
pub fn create_connector() -> (r: Request)
    ensures
        r matches Request::ConnectorCreate(c) && holds_text(c.connector_handle, CONNECTOR_HANDLE@)
            && holds_text(c.acct_mgmt_server, ACCOUNT_SERVER@),
{
    Request::ConnectorCreate(
        ConnectorCreate {
            connector_handle: Some(String::from_str(CONNECTOR_HANDLE)),
            acct_mgmt_server: Some(String::from_str(ACCOUNT_SERVER)),
        },
    )
}

/// The anonymous login of the echo account through the connector, with a
/// login token issued at `now`.
pub fn login(generator: &mut TokenGenerator, now: u64) -> (r: Result<Request, ConfigError>)
    requires
        old(generator).req_index < u64::MAX,
        now <= u64::MAX - TOKEN_LIFETIME_SECS,
    ensures
        r matches Ok(req) ==> {
            &&& req matches Request::AnonymousLogin(l) && {
                &&& holds_text(l.connector_handle, CONNECTOR_HANDLE@)
                &&& holds_text(l.acct_name, ECHO_ACCOUNT@)
                &&& holds_text(l.displayname, ECHO_DISPLAY_NAME@)
                &&& holds_text(l.account_handle, ECHO_ACCOUNT@)
                &&& holds_text(
                    l.access_token,
                    signed_token(
                        ACCESS_TOKEN_KEY@,
                        access_claims(
                            ECHO_ISSUER@,
                            now,
                            "login"@,
                            old(generator).req_index,
                            audience(ECHO_ACCOUNT@, ECHO_DOMAIN@),
                            None,
                        ),
                    ),
                )
                &&& l.acct_mgmt_server is None && l.application_override is None
                    && l.application_token is None && l.languages is None
                    && l.autopost_crash_dumps is None && l.enable_buddies_and_presence is None
                    && l.participant_property_frequency is None
                    && l.enable_presence_persistence is None
            }
            &&& final(generator).req_index == old(generator).req_index + 1
        },
        r is Ok,
{
    proof {
        reveal_strlit("gmclvivox-gmvivox-w-dev");
        reveal_strlit(".gmclvivox-gmvivox-w-dev.dunkel.");
        reveal_strlit("vdx5.vivox.com");
        reveal_strlit("login");
        reveal_strlit("sip:");
        reveal_strlit("@");
        assert(claims_fit(
            ECHO_ISSUER@,
            "login"@,
            audience(ECHO_ACCOUNT@, ECHO_DOMAIN@),
            None,
        ));
    }
    let req = AnonymousLogin::new().connector_handle(CONNECTOR_HANDLE).acct_name(
        ECHO_ACCOUNT,
    ).displayname(ECHO_DISPLAY_NAME).account_handle(ECHO_ACCOUNT);
    match req.access_token(ECHO_ISSUER, ECHO_DOMAIN, generator, now) {
        Ok(l) => Ok(l.issue()),
        Err(e) => Err(e),
    }
}

/// Joining the echo channel with audio and text, with a join token for the
/// channel issued at `now`.
pub fn join_echo(generator: &mut TokenGenerator, now: u64) -> (r: Result<Request, ConfigError>)
    requires
        old(generator).req_index < u64::MAX,
        now <= u64::MAX - TOKEN_LIFETIME_SECS,
    ensures
        r matches Ok(req) ==> {
            &&& req matches Request::AddSession(s) && {
                &&& holds_text(s.sessiongroup_handle, ECHO_SESSION_GROUP@)
                &&& holds_text(s.session_handle, ECHO_SESSION@)
                &&& holds_text(s.uri, ECHO_CHANNEL_URI@)
                &&& s.connect_audio == Some(1i32)
                &&& s.connect_text == Some(1i32)
                &&& holds_text(s.account_handle, ECHO_ACCOUNT@)
                &&& holds_text(
                    s.access_token,
                    signed_token(
                        ACCESS_TOKEN_KEY@,
                        access_claims(
                            ECHO_ISSUER@,
                            now,
                            "join"@,
                            old(generator).req_index,
                            audience(ECHO_ACCOUNT@, ECHO_DOMAIN@),
                            Some(ECHO_CHANNEL_URI@),
                        ),
                    ),
                )
                &&& s.name is None && s.password is None && s.jitter_compensation is None
                    && s.password_hash_algorithm is None && s.session_font_id is None
            }
            &&& final(generator).req_index == old(generator).req_index + 1
        },
        r is Ok,
{
    proof {
        lemma_echo_uri_plain();
        reveal_strlit("gmclvivox-gmvivox-w-dev");
        reveal_strlit(".gmclvivox-gmvivox-w-dev.dunkel.");
        reveal_strlit("vdx5.vivox.com");
        reveal_strlit("join");
        reveal_strlit("sip:");
        reveal_strlit("@");
        reveal_strlit("sip:confctl-e-gmclvivox-gmvivox-w-dev.echotest@vdx5.vivox.com");
        assert(claims_fit(
            ECHO_ISSUER@,
            "join"@,
            audience(ECHO_ACCOUNT@, ECHO_DOMAIN@),
            Some(ECHO_CHANNEL_URI@),
        ));
    }
    let req = AddSession::new().sessiongroup_handle(ECHO_SESSION_GROUP).session_handle(
        ECHO_SESSION,
    );
    let req = match req.uri(ECHO_CHANNEL_URI) {
        Ok(s) => s,
        Err(e) => return Err(e),
    };
    let req = req.connect_audio(1).connect_text(1).account_handle(ECHO_ACCOUNT);
    match req.access_token(ECHO_ISSUER, ECHO_DOMAIN, generator, now) {
        Ok(s) => Ok(s.issue()),
        Err(e) => Err(e),
    }
}

} // verus!
