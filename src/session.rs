//! Session state and the handlers that interpret engine messages.
use vstd::prelude::*;

verus! {

/// Lifecycle flags updated by the message handlers.
#[derive(Clone, Copy, Debug, PartialEq, Eq, Structural)]
pub struct SessionState {
    pub connector_connected: bool,
    pub logged_in: bool,
}

impl SessionState {
    /// The protocol's invariant: a login only follows the creation of a
    /// connector. It holds as long as the engine sends events in that order
    /// (see `lemma_protocol_order`).
    pub open spec fn wf(&self) -> bool {
        self.logged_in ==> self.connector_connected
    }

    pub fn new() -> (r: SessionState)
        ensures
            !r.connector_connected,
            !r.logged_in,
            r.wf(),
    {
        SessionState { connector_connected: false, logged_in: false }
    }
}

/// The response kinds the handlers tell apart.
#[derive(Clone, Copy, Debug, PartialEq, Eq, Structural)]
pub enum ResponseKind {
    ConnectorCreate,
    Other,
}

/// An engine response to an earlier request.
#[derive(Clone, Copy, Debug, PartialEq, Eq, Structural)]
pub struct Response {
    pub kind: ResponseKind,
    /// 0 on success, anything else on failure.
    pub return_code: i32,
    /// The engine's status code, meaningful on failure.
    pub status_code: i32,
}

/// Sub-states of a login-state-changed event.
#[derive(Clone, Copy, Debug, PartialEq, Eq, Structural)]
pub enum LoginState {
    LoggedIn,
    Other,
}

/// Media states of a media-stream-updated event.
#[derive(Clone, Copy, Debug, PartialEq, Eq, Structural)]
pub enum MediaState {
    Connected,
    Disconnected,
    Other,
}

/// An unsolicited engine event.
#[allow(inconsistent_fields)]
#[derive(Debug)]
pub enum Event {
    LoginStateChanged { state: LoginState },
    MediaStreamUpdated { session_handle: String, state: MediaState, status_code: i32 },
    Other,
}

/// A message taken from the engine's queue.
#[derive(Debug)]
pub enum Message {
    Response(Response),
    Event(Event),
    Other,
}

/// What a handler observed, for the caller to report.
#[derive(Debug)]
pub enum Report {
    /// Nothing to report: the message was ignored.
    Ignored,
    /// A request failed with this engine status code.
    RequestFailed { status_code: i32 },
    /// The connector was created.
    ConnectorCreated,
    /// A successful response that needs no action.
    Acknowledged,
    /// The login state changed.
    LoginStateChanged { state: LoginState },
    /// Media of a channel session connected.
    MediaConnected { session_handle: String },
    /// Media of a channel session disconnected; a nonzero status code is an error.
    MediaDisconnected { session_handle: String, status_code: i32 },
}

/// The state after a response.
pub open spec fn after_response(s: SessionState, r: Response) -> SessionState {
    if r.return_code == 0 && r.kind == ResponseKind::ConnectorCreate {
        SessionState { connector_connected: true, ..s }
    } else {
        s
    }
}

/// The state after an event: a change to the logged-in state sets the flag.
pub open spec fn after_event(s: SessionState, e: Event) -> SessionState {
    match e {
        Event::LoginStateChanged { state } => if state == LoginState::LoggedIn {
            SessionState { logged_in: true, ..s }
        } else {
            s
        },
        _ => s,
    }
}

/// The state after any message.
pub open spec fn after_message(s: SessionState, m: Message) -> SessionState {
    match m {
        Message::Response(r) => after_response(s, r),
        Message::Event(e) => after_event(s, e),
        Message::Other => s,
    }
}

/// What is reported of a response.
pub open spec fn response_report(r: Response) -> Report {
    if r.return_code != 0 {
        Report::RequestFailed { status_code: r.status_code }
    } else if r.kind == ResponseKind::ConnectorCreate {
        Report::ConnectorCreated
    } else {
        Report::Acknowledged
    }
}

/// What is reported of an event.
pub open spec fn event_report(e: Event) -> Report {
    match e {
        Event::LoginStateChanged { state } => Report::LoginStateChanged { state },
        Event::MediaStreamUpdated { session_handle, state, status_code } => match state {
            MediaState::Connected => Report::MediaConnected { session_handle },
            MediaState::Disconnected => Report::MediaDisconnected { session_handle, status_code },
            MediaState::Other => Report::Ignored,
        },
        Event::Other => Report::Ignored,
    }
}

/// What is reported of any message.
pub open spec fn message_report(m: Message) -> Report {
    match m {
        Message::Response(r) => response_report(r),
        Message::Event(e) => event_report(e),
        Message::Other => Report::Ignored,
    }
}

/// Interprets a response: a failure is reported and changes nothing; a
/// successful connector creation marks the connector as connected.
pub fn response_handler(state: &mut SessionState, resp: &Response) -> (r: Report)
    ensures
        *final(state) == after_response(*old(state), *resp),
        r == response_report(*resp),
{
    if resp.return_code != 0 {
        return Report::RequestFailed { status_code: resp.status_code };
    }
    match resp.kind {
        ResponseKind::ConnectorCreate => {
            state.connector_connected = true;
            Report::ConnectorCreated
        },
        ResponseKind::Other => Report::Acknowledged,
    }
}

/// Interprets an event: a change to the logged-in state marks the session as
/// logged in; media updates are only reported.
pub fn event_handler(state: &mut SessionState, evt: &Event) -> (r: Report)
    ensures
        *final(state) == after_event(*old(state), *evt),
        r == event_report(*evt),
{
    match evt {
        Event::LoginStateChanged { state: login } => {
            if *login == LoginState::LoggedIn {
                state.logged_in = true;
            }
            Report::LoginStateChanged { state: *login }
        },
        Event::MediaStreamUpdated { session_handle, state: media, status_code } => {
            match media {
                MediaState::Connected => Report::MediaConnected {
                    session_handle: session_handle.clone(),
                },
                MediaState::Disconnected => Report::MediaDisconnected {
                    session_handle: session_handle.clone(),
                    status_code: *status_code,
                },
                MediaState::Other => Report::Ignored,
            }
        },
        Event::Other => Report::Ignored,
    }
}

/// Routes a message to the response or the event handler; any other message
/// is ignored.
pub fn message_handler(state: &mut SessionState, msg: &Message) -> (r: Report)
    ensures
        *final(state) == after_message(*old(state), *msg),
        r == message_report(*msg),
{
    match msg {
        Message::Response(resp) => response_handler(state, resp),
        Message::Event(evt) => event_handler(state, evt),
        Message::Other => Report::Ignored,
    }
}

/// What one poll of the engine's message queue gave.
#[derive(Debug)]
pub enum Polled {
    Available(Message),
    Failure,
    NoMessage,
}

/// What the poll loop does after one poll.
#[derive(Debug)]
pub enum PollOutcome {
    /// A message was handled; poll again.
    Handled(Report),
    /// The queue reported a failure; poll again.
    Failed,
    /// The queue is empty; stop until the next round.
    Drained,
}

/// One turn of the poll loop: a message is handled, a failure is reported and
/// polling goes on, an empty queue ends the round.
pub fn poll_step(state: &mut SessionState, polled: &Polled) -> (r: PollOutcome)
    ensures
        *polled matches Polled::Available(m) ==> *final(state) == after_message(*old(state), m)
            && r == PollOutcome::Handled(message_report(m)),
        polled is Failure ==> *final(state) == *old(state) && r is Failed,
        polled is NoMessage ==> *final(state) == *old(state) && r is Drained,
{
    match polled {
        Polled::Available(m) => PollOutcome::Handled(message_handler(state, m)),
        Polled::Failure => PollOutcome::Failed,
        Polled::NoMessage => PollOutcome::Drained,
    }
}

/// The state after handling a sequence of messages in order.
pub open spec fn after_messages(s: SessionState, msgs: Seq<Message>) -> SessionState
    decreases msgs.len(),
{
    if msgs.len() == 0 {
        s
    } else {
        after_message(after_messages(s, msgs.drop_last()), msgs.last())
    }
}

/// Over one run, the flags only ever go from false to true: once the connector
/// is connected or the session logged in, no later message reverts it, so each
/// flips at most once.
pub proof fn lemma_session_monotonic(s: SessionState, msgs: Seq<Message>, i: int, j: int)
    requires
        0 <= i <= j <= msgs.len(),
    ensures
        after_messages(s, msgs.take(i)).connector_connected ==> after_messages(
            s,
            msgs.take(j),
        ).connector_connected,
        after_messages(s, msgs.take(i)).logged_in ==> after_messages(
            s,
            msgs.take(j),
        ).logged_in,
    decreases j - i,
{
    if i < j {
        lemma_session_monotonic(s, msgs, i, j - 1);
        assert(msgs.take(j).drop_last() =~= msgs.take(j - 1));
    }
}

/// The message announces that the session is logged in.
pub open spec fn is_logged_in_event(m: Message) -> bool {
    m matches Message::Event(Event::LoginStateChanged { state }) && state == LoginState::LoggedIn
}

/// When the engine keeps the protocol's order, announcing a login only once the
/// connector exists, a login never holds without a connector.
pub proof fn lemma_protocol_order(s: SessionState, msgs: Seq<Message>)
    requires
        s.wf(),
        forall|k: int|
            0 <= k < msgs.len() && is_logged_in_event(#[trigger] msgs[k]) ==> after_messages(
                s,
                msgs.take(k),
            ).connector_connected,
    ensures
        after_messages(s, msgs).wf(),
    decreases msgs.len(),
{
    if msgs.len() > 0 {
        let n = msgs.len() - 1;
        let front = msgs.drop_last();
        assert forall|k: int|
            0 <= k < front.len() && is_logged_in_event(#[trigger] front[k]) implies after_messages(
            s,
            front.take(k),
        ).connector_connected by {
            assert(front.take(k) =~= msgs.take(k));
            assert(front[k] == msgs[k]);
        }
        lemma_protocol_order(s, front);
        assert(msgs.take(n as int) =~= front);
    }
}

} // verus!
