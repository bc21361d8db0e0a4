//! One client of the proxy: a connection to the upstream server is made for it,
//! and both directions are forwarded until one of them ends.
use vstd::prelude::*;

use crate::forward::{ForwardStateView, ForwardTask, Forwarder, ForwarderView};
use crate::hook::{Direction, Side};

verus! {

/// What keeps a session from being served.
#[derive(Debug, Clone, Copy, PartialEq, Eq, Structural)]
pub enum SessionError {
    PeerUnknown,
    ConnectFailed,
}

/// What a `SessionError` adds to what the system tells, if it adds anything.
pub open spec fn session_error_context(error: SessionError) -> Option<Seq<char>> {
    match error {
        SessionError::PeerUnknown => None,
        SessionError::ConnectFailed => Some("Failed to connect to upstream server"@),
    }
}

impl SessionError {
    /// What the error adds to what the system tells.
    pub fn context(self) -> (context: Option<&'static str>)
        ensures
            match session_error_context(self) {
                Some(text) => context matches Some(c) && c@ == text,
                None => context is None,
            },
    {
        match self {
            SessionError::PeerUnknown => None,
            SessionError::ConnectFailed => Some("Failed to connect to upstream server"),
        }
    }
}

/// Where a session stands.
pub enum SessionState {
    Starting,
    Connecting { client_addr: String },
    Relaying,
    Closed,
}

/// Where a session stands, as mathematics.
#[verifier::ext_equal]
pub enum SessionStateView {
    Starting,
    Connecting { client_addr: Seq<char> },
    Relaying,
    Closed,
}

impl View for SessionState {
    type V = SessionStateView;

    open spec fn view(&self) -> SessionStateView {
        match self {
            SessionState::Starting => SessionStateView::Starting,
            SessionState::Connecting { client_addr } => SessionStateView::Connecting {
                client_addr: client_addr@,
            },
            SessionState::Relaying => SessionStateView::Relaying,
            SessionState::Closed => SessionStateView::Closed,
        }
    }
}

/// What happened.
pub enum SessionEvent {
    /// The client's address is known.
    PeerKnown(String),
    PeerUnknown,
    Connected,
    ConnectFailed,
    /// The task of a direction has ended, by itself or by breaking down.
    Ended { direction: Direction, broken: bool },
}

/// What happened, as mathematics.
pub enum SessionEventView {
    PeerKnown(Seq<char>),
    PeerUnknown,
    Connected,
    ConnectFailed,
    Ended { direction: Direction, broken: bool },
}

impl View for SessionEvent {
    type V = SessionEventView;

    open spec fn view(&self) -> SessionEventView {
        match self {
            SessionEvent::PeerKnown(client_addr) => SessionEventView::PeerKnown(client_addr@),
            SessionEvent::PeerUnknown => SessionEventView::PeerUnknown,
            SessionEvent::Connected => SessionEventView::Connected,
            SessionEvent::ConnectFailed => SessionEventView::ConnectFailed,
            SessionEvent::Ended { direction, broken } => SessionEventView::Ended {
                direction: *direction,
                broken: *broken,
            },
        }
    }
}

/// One way through a session: what the source sends is read, and what the
/// forwarder writes goes to the destination.
pub struct Leg {
    pub source: Side,
    pub destination: Side,
    pub forwarder: Forwarder,
}

/// One way through a session, as mathematics.
#[verifier::ext_equal]
pub struct LegView {
    pub source: Side,
    pub destination: Side,
    pub forwarder: ForwarderView,
}

impl View for Leg {
    type V = LegView;

    open spec fn view(&self) -> LegView {
        LegView {
            source: self.source,
            destination: self.destination,
            forwarder: self.forwarder@,
        }
    }
}

/// The way through a session in a direction: from the side where it starts to the
/// side where it ends. All hooks are called, with the client's address.
pub open spec fn leg_of(direction: Direction, client_addr: Seq<char>, hooks: int) -> LegView {
    LegView {
        source: crate::hook::source_of(direction),
        destination: crate::hook::destination_of(direction),
        forwarder: crate::forward::starting(direction, client_addr, hooks),
    }
}

impl Leg {
    /// The way through a session in a direction.
    pub fn new(direction: Direction, client_addr: &str, hook_count: usize) -> (leg: Leg)
        ensures
            leg@ == leg_of(direction, client_addr@, hook_count as int),
            leg.forwarder.wf(),
    {
        Leg {
            source: direction.source(),
            destination: direction.destination(),
            forwarder: Forwarder::new(direction, client_addr, hook_count),
        }
    }
}

/// What to do next.
pub enum SessionAction {
    /// Connect to this address.
    Connect(String),
    /// Forward both ways at once, with the same hooks.
    Relay { to_upstream: Leg, to_client: Leg },
    /// Drop both connections. If a task broke down, say which.
    Close { broken: Option<Direction>, result: Result<(), SessionError> },
}

/// What to do next, as mathematics.
#[verifier::ext_equal]
pub enum SessionActionView {
    Connect(Seq<char>),
    Relay { to_upstream: LegView, to_client: LegView },
    Close { broken: Option<Direction>, result: Result<(), SessionError> },
}

impl View for SessionAction {
    type V = SessionActionView;

    open spec fn view(&self) -> SessionActionView {
        match self {
            SessionAction::Connect(addr) => SessionActionView::Connect(addr@),
            SessionAction::Relay { to_upstream, to_client } => SessionActionView::Relay {
                to_upstream: to_upstream@,
                to_client: to_client@,
            },
            SessionAction::Close { broken, result } => SessionActionView::Close {
                broken: *broken,
                result: *result,
            },
        }
    }
}

/// What a session is made for, which never changes, and where it stands.
#[verifier::ext_equal]
pub struct SessionView {
    pub upstream_addr: Seq<char>,
    /// How many hooks there are.
    pub hooks: int,
    pub state: SessionStateView,
}

/// The end of a session that could not be served.
pub open spec fn refused(error: SessionError) -> (SessionStateView, SessionActionView) {
    (SessionStateView::Closed, SessionActionView::Close { broken: None, result: Err(error) })
}

/// What follows on an event, or that the event does not fit.
pub open spec fn session_step(session: SessionView, event: SessionEventView) -> Option<
    (SessionStateView, SessionActionView),
> {
    match (session.state, event) {
        (SessionStateView::Starting, SessionEventView::PeerKnown(client_addr)) => Some(
            (
                SessionStateView::Connecting { client_addr },
                SessionActionView::Connect(session.upstream_addr),
            ),
        ),
        (SessionStateView::Starting, SessionEventView::PeerUnknown) => Some(
            refused(SessionError::PeerUnknown),
        ),
        (SessionStateView::Connecting { client_addr }, SessionEventView::Connected) => Some(
            (
                SessionStateView::Relaying,
                SessionActionView::Relay {
                    to_upstream: leg_of(Direction::ClientToUpstream, client_addr, session.hooks),
                    to_client: leg_of(Direction::UpstreamToClient, client_addr, session.hooks),
                },
            ),
        ),
        (SessionStateView::Connecting { client_addr }, SessionEventView::ConnectFailed) => Some(
            refused(SessionError::ConnectFailed),
        ),
        (SessionStateView::Relaying, SessionEventView::Ended { direction, broken }) => Some(
            (
                SessionStateView::Closed,
                SessionActionView::Close {
                    broken: if broken {
                        Some(direction)
                    } else {
                        None
                    },
                    result: Ok(()),
                },
            ),
        ),
        _ => None,
    }
}

/// One client of the proxy.
pub struct Session {
    upstream_addr: String,
    hook_count: usize,
    state: SessionState,
}

impl View for Session {
    type V = SessionView;

    closed spec fn view(&self) -> SessionView {
        SessionView {
            upstream_addr: self.upstream_addr@,
            hooks: self.hook_count as int,
            state: self.state@,
        }
    }
}

impl Session {
    /// A session that starts.
    pub fn new(upstream_addr: &str, hook_count: usize) -> (session: Session)
        ensures
            session@ == (SessionView {
                upstream_addr: upstream_addr@,
                hooks: hook_count as int,
                state: SessionStateView::Starting,
            }),
    {
        Session {
            upstream_addr: upstream_addr.to_string(),
            hook_count,
            state: SessionState::Starting,
        }
    }

    /// Goes on after an event; nothing if the event does not fit.
    pub fn handle_client(&mut self, event: SessionEvent) -> (action: Option<SessionAction>)
        ensures
            match session_step(old(self)@, event@) {
                Some((state, next)) => final(self)@ == (SessionView { state, ..old(self)@ }) && (
                action matches Some(a) && a@ == next),
                None => action is None && final(self)@ == old(self)@,
            },
            action matches Some(SessionAction::Relay { to_upstream, to_client })
                ==> to_upstream.forwarder.wf() && to_client.forwarder.wf(),
    {
        let mut state = SessionState::Closed;
        std::mem::swap(&mut state, &mut self.state);
        match (state, event) {
            (SessionState::Starting, SessionEvent::PeerKnown(client_addr)) => {
                self.state = SessionState::Connecting { client_addr };
                Some(SessionAction::Connect(self.upstream_addr.clone()))
            },
            (SessionState::Starting, SessionEvent::PeerUnknown) => {
                Some(
                    SessionAction::Close { broken: None, result: Err(SessionError::PeerUnknown) },
                )
            },
            (SessionState::Connecting { client_addr }, SessionEvent::Connected) => {
                self.state = SessionState::Relaying;
                let hooks = self.hook_count;
                let to_upstream = Leg::new(Direction::ClientToUpstream, &client_addr, hooks);
                let to_client = Leg::new(Direction::UpstreamToClient, &client_addr, hooks);
                Some(SessionAction::Relay { to_upstream, to_client })
            },
            (SessionState::Connecting { client_addr }, SessionEvent::ConnectFailed) => {
                Some(
                    SessionAction::Close { broken: None, result: Err(SessionError::ConnectFailed) },
                )
            },
            (SessionState::Relaying, SessionEvent::Ended { direction, broken }) => {
                let broken = if broken {
                    Some(direction)
                } else {
                    None
                };
                Some(SessionAction::Close { broken, result: Ok(()) })
            },
            (state, _) => {
                self.state = state;
                None
            },
        }
    }
}

/// Nothing is forwarded before the upstream server is connected; the direction
/// that ends first ends the session, which counts as served; and nothing follows
/// on its end.
pub proof fn law_first_direction_to_end_closes_the_session(
    session: SessionView,
    event: SessionEventView,
)
    ensures
        session.state is Closed ==> session_step(session, event) is None,
        session_step(session, event) matches Some((next, action)) ==> {
            &&& action is Relay <==> session.state is Connecting && event is Connected
            &&& session.state is Relaying ==> next is Closed && action is Close
                && action->result is Ok
            &&& next is Closed <==> action is Close
        },
{
}

/// What the client sends goes to the upstream server and what the upstream server
/// sends goes to the client, each under its own direction. The hooks of both ways
/// are the session's, and are called with the address under which the client
/// came.
pub proof fn law_each_side_gets_what_the_other_sends(
    session: SessionView,
    client_addr: Seq<char>,
)
    requires
        session.state is Starting,
    ensures
        session_step(session, SessionEventView::PeerKnown(client_addr)) matches Some(
            (connecting, connect),
        ) && connect == SessionActionView::Connect(session.upstream_addr) && (session_step(
            SessionView { state: connecting, ..session },
            SessionEventView::Connected,
        ) matches Some((relaying, relay)) && {
            &&& relay is Relay
            &&& relay->to_upstream.source is Client && relay->to_upstream.destination is Upstream
            &&& relay->to_client.source is Upstream && relay->to_client.destination is Client
            &&& relay->to_upstream.forwarder == crate::forward::starting(
                Direction::ClientToUpstream,
                client_addr,
                session.hooks,
            )
            &&& relay->to_client.forwarder == crate::forward::starting(
                Direction::UpstreamToClient,
                client_addr,
                session.hooks,
            )
        }),
{
}

/// A session whose client is known connects to the upstream server; one whose client
/// is not known, or whose upstream server cannot be reached, is closed with that
/// error, and no task is said to have broken down.
pub proof fn law_sessions_that_cannot_be_served_are_refused(
    upstream_addr: Seq<char>,
    hooks: int,
    client_addr: Seq<char>,
)
    ensures
        ({
            let state = SessionStateView::Starting;
            let starting = SessionView { upstream_addr, hooks, state };
            &&& session_step(starting, SessionEventView::PeerKnown(client_addr)) == Some(
                (
                    SessionStateView::Connecting { client_addr },
                    SessionActionView::Connect(upstream_addr),
                ),
            )
            &&& session_step(starting, SessionEventView::PeerUnknown) == Some(
                (
                    SessionStateView::Closed,
                    SessionActionView::Close {
                        broken: None,
                        result: Err(SessionError::PeerUnknown),
                    },
                ),
            )
        }),
        ({
            let state = SessionStateView::Connecting { client_addr };
            session_step(
                SessionView { upstream_addr, hooks, state },
                SessionEventView::ConnectFailed,
            ) == Some(
                (
                    SessionStateView::Closed,
                    SessionActionView::Close {
                        broken: None,
                        result: Err(SessionError::ConnectFailed),
                    },
                ),
            )
        }),
{
}

/// The end of a direction closes the session, which counts as served. It is told
/// which direction's task broke down exactly if one did.
pub proof fn law_a_broken_direction_is_told(
    upstream_addr: Seq<char>,
    hooks: int,
    direction: Direction,
)
    ensures
        ({
            let state = SessionStateView::Relaying;
            let relaying = SessionView { upstream_addr, hooks, state };
            &&& session_step(relaying, SessionEventView::Ended { direction, broken: true }) == Some(
                (
                    SessionStateView::Closed,
                    SessionActionView::Close { broken: Some(direction), result: Ok(()) },
                ),
            )
            &&& session_step(relaying, SessionEventView::Ended { direction, broken: false })
                == Some(
                (
                    SessionStateView::Closed,
                    SessionActionView::Close { broken: None, result: Ok(()) },
                ),
            )
        }),
{
}

/// Once the upstream server is connected both ways start by reading. Each has its own
/// direction; the client's address and the hooks are the same for both.
pub proof fn law_both_ways_start_for_one_client(
    upstream_addr: Seq<char>,
    hooks: int,
    client_addr: Seq<char>,
)
    ensures
        ({
            let state = SessionStateView::Connecting { client_addr };
            session_step(
                SessionView { upstream_addr, hooks, state },
                SessionEventView::Connected,
            ) == Some(
                (
                    SessionStateView::Relaying,
                    SessionActionView::Relay {
                        to_upstream: LegView {
                            source: Side::Client,
                            destination: Side::Upstream,
                            forwarder: ForwarderView {
                                task: ForwardTask {
                                    direction: Direction::ClientToUpstream,
                                    client_addr,
                                    hooks,
                                },
                                state: ForwardStateView::Reading,
                            },
                        },
                        to_client: LegView {
                            source: Side::Upstream,
                            destination: Side::Client,
                            forwarder: ForwarderView {
                                task: ForwardTask {
                                    direction: Direction::UpstreamToClient,
                                    client_addr,
                                    hooks,
                                },
                                state: ForwardStateView::Reading,
                            },
                        },
                    },
                ),
            )
        }),
{
}

/// An event counts exactly if it is one of those that the session waits for.
pub proof fn law_only_events_that_are_due_count(session: SessionView, event: SessionEventView)
    ensures
        session_step(session, event) is Some <==> {
            ||| session.state is Starting && (event is PeerKnown || event is PeerUnknown)
            ||| session.state is Connecting && (event is Connected || event is ConnectFailed)
            ||| session.state is Relaying && event is Ended
        },
{
}

/// What is looked at of an event, a way or an action is all that it holds.
pub proof fn law_no_part_of_a_session_is_overlooked(
    addr: String,
    direction: Direction,
    broken: bool,
    to_upstream: Leg,
    to_client: Leg,
    told: Option<Direction>,
    result: Result<(), SessionError>,
)
    ensures
        SessionEvent::PeerKnown(addr)@ == SessionEventView::PeerKnown(addr@),
        SessionEvent::PeerUnknown@ == SessionEventView::PeerUnknown,
        SessionEvent::Connected@ == SessionEventView::Connected,
        SessionEvent::ConnectFailed@ == SessionEventView::ConnectFailed,
        (SessionEvent::Ended { direction, broken })@ == (SessionEventView::Ended {
            direction,
            broken,
        }),
        to_upstream@.source == to_upstream.source,
        to_upstream@.destination == to_upstream.destination,
        to_upstream@.forwarder == to_upstream.forwarder@,
        SessionAction::Connect(addr)@ == SessionActionView::Connect(addr@),
        (SessionAction::Relay { to_upstream, to_client })@ == (SessionActionView::Relay {
            to_upstream: to_upstream@,
            to_client: to_client@,
        }),
        (SessionAction::Close { broken: told, result })@ == (SessionActionView::Close {
            broken: told,
            result,
        }),
        (SessionState::Connecting { client_addr: addr })@ == (SessionStateView::Connecting {
            client_addr: addr@,
        }),
{
}

} // verus!
