//! The proxy server: it listens, accepts clients and stops.
//!
//! The program around it binds, accepts, spawns and waits, and tells how it
//! went; what follows is decided here.
use vstd::prelude::*;

use crate::config::{ProxyConfig, ProxyConfigView};
use crate::session::{Session, SessionStateView, SessionView};

verus! {

/// What keeps a proxy from going on.
#[derive(Debug, Clone, Copy, PartialEq, Eq, Structural)]
pub enum ProxyError {
    AlreadyListening,
    BindFailed,
    NotListening,
    TaskFailed,
}

/// What a `ProxyError` tells, or adds to what the system tells, if it adds
/// anything.
pub open spec fn proxy_error_context(error: ProxyError) -> Option<Seq<char>> {
    match error {
        ProxyError::AlreadyListening => Some("Already listening!"@),
        ProxyError::BindFailed => Some("Failed to bind to listen address"@),
        ProxyError::NotListening => Some("Not listening!"@),
        ProxyError::TaskFailed => None,
    }
}

impl ProxyError {
    /// What the error tells, or adds to what the system tells.
    pub fn context(self) -> (context: Option<&'static str>)
        ensures
            match proxy_error_context(self) {
                Some(text) => context matches Some(c) && c@ == text,
                None => context is None,
            },
    {
        match self {
            ProxyError::AlreadyListening => Some("Already listening!"),
            ProxyError::BindFailed => Some("Failed to bind to listen address"),
            ProxyError::NotListening => Some("Not listening!"),
            ProxyError::TaskFailed => None,
        }
    }
}

/// Where a proxy stands.
#[verifier::ext_equal]
pub struct ProxyView {
    pub config: ProxyConfigView,
    pub hooks: nat,
    pub listening: bool,
    /// There is a background task that accepts clients.
    pub running: bool,
    pub connections: nat,
}

/// Stratum V1 proxy server
#[derive(Debug)]
pub struct Proxy {
    config: ProxyConfig,
    hook_count: usize,
    listening: bool,
    running: bool,
    /// Received connections count
    connect_count: usize,
}

impl View for Proxy {
    type V = ProxyView;

    closed spec fn view(&self) -> ProxyView {
        ProxyView {
            config: self.config@,
            hooks: self.hook_count as nat,
            listening: self.listening,
            running: self.running,
            connections: self.connect_count as nat,
        }
    }
}

/// What happened while the proxy stops.
#[derive(Clone, Copy, PartialEq, Eq, Structural)]
pub enum StopEvent {
    /// The proxy shall stop; it may be told to wait until at least one
    /// connection has been received.
    Requested { wait_for_first_connection: bool },
    /// The background task has been told.
    Notified,
    /// The background task has ended, by itself or by breaking down.
    Joined,
    JoinFailed,
}

/// What to do next to stop the proxy.
#[derive(Debug, PartialEq, Eq, Structural)]
pub enum StopAction {
    /// Wait a little, then ask again.
    Wait,
    /// Tell the background task.
    Notify,
    /// Wait for the end of the background task.
    Join,
    /// Give up the listener, if there is one, and be done.
    Finish,
    /// Be done, with the listener as it is.
    Fail(ProxyError),
}

/// A proxy that has stopped listening.
pub open spec fn unlistened(proxy: ProxyView) -> ProxyView {
    ProxyView { listening: false, ..proxy }
}

/// How a proxy stops: it waits for a connection if it shall, tells its
/// background task, if it has one waits for its end, and stops listening.
pub open spec fn stop_step(proxy: ProxyView, event: StopEvent) -> (ProxyView, StopAction) {
    match event {
        StopEvent::Requested { wait_for_first_connection } => if wait_for_first_connection
            && proxy.connections == 0 {
            (proxy, StopAction::Wait)
        } else {
            (proxy, StopAction::Notify)
        },
        StopEvent::Notified => if proxy.running {
            (ProxyView { running: false, ..proxy }, StopAction::Join)
        } else {
            (unlistened(proxy), StopAction::Finish)
        },
        StopEvent::Joined => (
            unlistened(ProxyView { running: false, ..proxy }),
            StopAction::Finish,
        ),
        StopEvent::JoinFailed => (proxy, StopAction::Fail(ProxyError::TaskFailed)),
    }
}

/// What happened in the background task.
#[derive(Clone, Copy, PartialEq, Eq, Structural)]
pub enum AcceptEvent {
    /// The task has started, or the last client that came is being served.
    Ready,
    StopSignal,
    /// A client has connected.
    Accepted,
    AcceptFailed,
}

/// What the background task does next.
#[derive(Debug, PartialEq, Eq)]
pub enum AcceptAction {
    /// Wait for a client or for the stop signal.
    Accept,
    /// Serve the client in a task of its own and go on accepting meanwhile.
    SpawnAndAccept,
    /// Wait for the sessions that are still served, and be done.
    Finish(Result<(), ProxyError>),
}

/// Waits for the next client, if the proxy listens.
pub open spec fn accept_next(proxy: ProxyView) -> AcceptAction {
    if proxy.listening {
        AcceptAction::Accept
    } else {
        AcceptAction::Finish(Err(ProxyError::NotListening))
    }
}

/// How the background task goes on: it accepts clients, each of which is served in
/// a task of its own, until the stop signal comes.
pub open spec fn accept_step(proxy: ProxyView, event: AcceptEvent) -> (ProxyView, AcceptAction) {
    match event {
        AcceptEvent::Ready => (proxy, accept_next(proxy)),
        AcceptEvent::StopSignal => (proxy, AcceptAction::Finish(Ok(()))),
        AcceptEvent::Accepted => (
            ProxyView { connections: proxy.connections + 1, ..proxy },
            AcceptAction::SpawnAndAccept,
        ),
        AcceptEvent::AcceptFailed => (proxy, accept_next(proxy)),
    }
}

/// What comes of starting, where binding has succeeded or not.
pub open spec fn start_result(proxy: ProxyView, bound: bool) -> Result<ProxyView, ProxyError> {
    if proxy.listening {
        Err(ProxyError::AlreadyListening)
    } else if !bound {
        Err(ProxyError::BindFailed)
    } else {
        Ok(ProxyView { listening: true, running: true, ..proxy })
    }
}

/// A proxy with a background task listens.
pub open spec fn is_sound(proxy: ProxyView) -> bool {
    proxy.running ==> proxy.listening
}

impl Proxy {
    /// A proxy with a background task listens.
    pub open spec fn wf(&self) -> bool {
        is_sound(self@)
    }

    /// A proxy that does not listen yet, with this many hooks.
    pub fn new(config: ProxyConfig, hook_count: usize) -> (proxy: Proxy)
        ensures
            proxy.wf(),
            proxy@ == (ProxyView {
                config: config@,
                hooks: hook_count as nat,
                listening: false,
                running: false,
                connections: 0,
            }),
    {
        Proxy { config, hook_count, listening: false, running: false, connect_count: 0 }
    }

    /// The address to bind to, if the proxy does not listen yet.
    pub fn listen(&self) -> (addr: Result<String, ProxyError>)
        ensures
            self@.listening ==> addr == Err::<String, ProxyError>(ProxyError::AlreadyListening),
            !self@.listening ==> (addr matches Ok(a) && a@ == self@.config.listen_addr),
    {
        if self.listening {
            Err(ProxyError::AlreadyListening)
        } else {
            Ok(self.config.listen_addr.clone())
        }
    }

    /// Listen, start processing in background; binding has succeeded or not.
    pub fn start(&mut self, bound: bool) -> (result: Result<(), ProxyError>)
        ensures
            old(self).wf() ==> final(self).wf(),
            match start_result(old(self)@, bound) {
                Ok(started) => result is Ok && final(self)@ == started,
                Err(error) => result == Err::<(), ProxyError>(error) && final(self)@ == old(self)@,
            },
    {
        if self.listening {
            return Err(ProxyError::AlreadyListening);
        }
        if !bound {
            return Err(ProxyError::BindFailed);
        }
        self.listening = true;
        self.running = true;
        Ok(())
    }

    /// Stop the background thread, do a clean shutdown, unlisten.
    pub fn stop(&mut self, event: StopEvent) -> (action: StopAction)
        ensures
            old(self).wf() ==> final(self).wf(),
            (final(self)@, action) == stop_step(old(self)@, event),
    {
        match event {
            StopEvent::Requested { wait_for_first_connection } => {
                if wait_for_first_connection && self.connect_count == 0 {
                    StopAction::Wait
                } else {
                    StopAction::Notify
                }
            },
            StopEvent::Notified => {
                if self.running {
                    self.running = false;
                    StopAction::Join
                } else {
                    let _ = self.unlisten();
                    StopAction::Finish
                }
            },
            StopEvent::Joined => {
                self.running = false;
                let _ = self.unlisten();
                StopAction::Finish
            },
            StopEvent::JoinFailed => StopAction::Fail(ProxyError::TaskFailed),
        }
    }

    /// Stops listening, which never fails; without effect if the proxy does not
    /// listen.
    pub fn unlisten(&mut self) -> (result: Result<(), ProxyError>)
        ensures
            result is Ok,
            final(self)@ == unlistened(old(self)@),
            !old(self)@.running ==> final(self).wf(),
    {
        self.listening = false;
        Ok(())
    }

    /// Goes on with the background task after an event.
    pub fn run_background(&mut self, event: AcceptEvent) -> (action: AcceptAction)
        requires
            event is Accepted ==> old(self)@.connections < usize::MAX,
        ensures
            old(self).wf() ==> final(self).wf(),
            (final(self)@, action) == accept_step(old(self)@, event),
    {
        match event {
            AcceptEvent::StopSignal => AcceptAction::Finish(Ok(())),
            AcceptEvent::Accepted => {
                self.connect_count = self.connect_count + 1;
                AcceptAction::SpawnAndAccept
            },
            _ => {
                if self.listening {
                    AcceptAction::Accept
                } else {
                    AcceptAction::Finish(Err(ProxyError::NotListening))
                }
            },
        }
    }

    /// The session of a client that has connected.
    pub fn session(&self) -> (session: Session)
        ensures
            session@ == (SessionView {
                upstream_addr: self@.config.upstream_addr,
                hooks: self@.hooks as int,
                state: SessionStateView::Starting,
            }),
    {
        Session::new(&self.config.upstream_addr, self.hook_count)
    }

    /// How many clients have connected.
    pub fn get_connect_count(&self) -> (count: usize)
        ensures
            count == self@.connections,
    {
        self.connect_count
    }
}

/// What happened to the proxy that runs for good.
#[derive(Clone, Copy, PartialEq, Eq, Structural)]
pub enum ServeEvent {
    Bound,
    BindFailed,
    Accepted,
    AcceptFailed,
}

/// What the proxy that runs for good does next.
#[derive(Debug, PartialEq, Eq, Structural)]
pub enum ServeAction {
    Accept,
    /// Serve the client in a task of its own and accept the next one meanwhile.
    SpawnAndAccept,
    Fail(ProxyError),
}

/// Run the Stratum V1 proxy server: once it is bound it accepts for good, each
/// client being served in a task of its own. A client that cannot be accepted
/// keeps it from nothing.
pub fn run_proxy(event: ServeEvent) -> (action: ServeAction)
    ensures
        action == match event {
            ServeEvent::Bound => ServeAction::Accept,
            ServeEvent::BindFailed => ServeAction::Fail(ProxyError::BindFailed),
            ServeEvent::Accepted => ServeAction::SpawnAndAccept,
            ServeEvent::AcceptFailed => ServeAction::Accept,
        },
{
    match event {
        ServeEvent::Bound => ServeAction::Accept,
        ServeEvent::BindFailed => ServeAction::Fail(ProxyError::BindFailed),
        ServeEvent::Accepted => ServeAction::SpawnAndAccept,
        ServeEvent::AcceptFailed => ServeAction::Accept,
    }
}

/// A proxy that was started refuses to be started again, whether or not the
/// address could be bound, and stays as it is.
pub proof fn law_no_second_start(proxy: ProxyView, bound: bool)
    requires
        proxy.listening,
    ensures
        start_result(proxy, bound) == Err::<ProxyView, ProxyError>(ProxyError::AlreadyListening),
{
}

/// Starting and stopping leaves a proxy as it was before, and able to start
/// again: it notifies its background task, waits for it, and stops listening.
pub proof fn law_stop_undoes_start(proxy: ProxyView)
    requires
        !proxy.listening,
        is_sound(proxy),
    ensures
        start_result(proxy, true) matches Ok(started) && {
            let (told, notify) = stop_step(
                started,
                StopEvent::Requested { wait_for_first_connection: false },
            );
            let (alone, join) = stop_step(told, StopEvent::Notified);
            let (stopped, finish) = stop_step(alone, StopEvent::Joined);
            &&& notify == StopAction::Notify
            &&& join == StopAction::Join
            &&& finish == StopAction::Finish
            &&& stopped == proxy
        },
{
}

/// A proxy that stops listening does not listen, and can be started again; to stop
/// listening once more changes nothing. The same holds of a proxy that has stopped.
pub proof fn law_unlisten_twice_is_unlisten_once(proxy: ProxyView, bound: bool)
    ensures
        !unlistened(proxy).listening,
        unlistened(unlistened(proxy)) == unlistened(proxy),
        !proxy.listening ==> unlistened(proxy) == proxy,
        start_result(unlistened(proxy), bound) != Err::<ProxyView, ProxyError>(
            ProxyError::AlreadyListening,
        ),
        ({
            let stopped = stop_step(proxy, StopEvent::Joined).0;
            &&& !stopped.listening
            &&& !stopped.running
            &&& stop_step(stopped, StopEvent::Joined).0 == stopped
            &&& start_result(stopped, bound) != Err::<ProxyView, ProxyError>(
                ProxyError::AlreadyListening,
            )
        }),
{
}

/// Stopping a proxy that was never started changes nothing and waits for no
/// task.
pub proof fn law_stop_without_start(proxy: ProxyView)
    requires
        !proxy.listening,
        is_sound(proxy),
    ensures
        stop_step(proxy, StopEvent::Notified) == (proxy, StopAction::Finish),
{
}

/// A proxy that shall wait for its first connection waits as long as it has none
/// and not longer.
pub proof fn law_stop_waits_for_the_first_connection(proxy: ProxyView, wait: bool)
    ensures
        stop_step(proxy, StopEvent::Requested { wait_for_first_connection: wait }).1
            == StopAction::Wait <==> wait && proxy.connections == 0,
{
}

/// A client that is being served keeps no other client out: the proxy serves each
/// in a task of its own and goes on accepting.
pub proof fn law_clients_are_served_side_by_side(proxy: ProxyView)
    requires
        proxy.listening,
    ensures
        ({
            let (counted, serve) = accept_step(proxy, AcceptEvent::Accepted);
            &&& serve == AcceptAction::SpawnAndAccept
            &&& accept_step(counted, AcceptEvent::Ready) == (counted, AcceptAction::Accept)
        }),
{
}

/// The count of connections grows by one with each client that connects, and by
/// nothing else.
pub proof fn law_only_clients_are_counted(
    proxy: ProxyView,
    accept: AcceptEvent,
    stop: StopEvent,
    bound: bool,
)
    ensures
        accept_step(proxy, accept).0.connections == if accept is Accepted {
            proxy.connections + 1
        } else {
            proxy.connections
        },
        stop_step(proxy, stop).0.connections == proxy.connections,
        start_result(proxy, bound) matches Ok(started) ==> started.connections
            == proxy.connections,
{
}

/// The stop signal ends the background task, and without an error, whatever the proxy
/// has done so far; it changes nothing of the proxy.
pub proof fn law_the_stop_signal_ends_the_background_task(proxy: ProxyView)
    ensures
        accept_step(proxy, AcceptEvent::StopSignal) == (proxy, AcceptAction::Finish(Ok(()))),
{
}

/// Nothing but the stop signal ends the background task of a proxy that listens: it
/// waits for the next client when it starts, while others are served, and after one
/// that could not be accepted. If the proxy does not listen, the task fails.
pub proof fn law_the_background_task_goes_on_while_the_proxy_listens(proxy: ProxyView)
    ensures
        proxy.listening ==> accept_step(proxy, AcceptEvent::Ready) == (proxy, AcceptAction::Accept),
        proxy.listening ==> accept_step(proxy, AcceptEvent::AcceptFailed) == (
            proxy,
            AcceptAction::Accept,
        ),
        !proxy.listening ==> accept_step(proxy, AcceptEvent::Ready) == (
            proxy,
            AcceptAction::Finish(Err(ProxyError::NotListening)),
        ),
        !proxy.listening ==> accept_step(proxy, AcceptEvent::AcceptFailed) == (
            proxy,
            AcceptAction::Finish(Err(ProxyError::NotListening)),
        ),
        accept_step(proxy, AcceptEvent::Accepted).1 == AcceptAction::SpawnAndAccept,
{
}

/// A proxy starts exactly if it does not listen yet and its address could be bound;
/// it then listens and has a background task. Otherwise it is told which of the two
/// it was, the first one first.
pub proof fn law_a_proxy_starts_if_it_can(proxy: ProxyView, bound: bool)
    ensures
        start_result(proxy, bound) is Ok <==> !proxy.listening && bound,
        start_result(proxy, bound) matches Ok(started) ==> started.listening && started.running,
        start_result(proxy, bound) == Err::<ProxyView, ProxyError>(ProxyError::AlreadyListening)
            <==> proxy.listening,
        start_result(proxy, bound) == Err::<ProxyView, ProxyError>(ProxyError::BindFailed)
            <==> !proxy.listening && !bound,
{
}

/// A proxy that shall stop tells its background task, once it need not wait for a
/// connection. If it has a background task it then waits for its end, and has none
/// any more; if not, it stops listening. When the task has ended it stops listening
/// and is done; when the task has broken down it fails and stays as it is.
pub proof fn law_a_proxy_stops_step_by_step(proxy: ProxyView, wait: bool)
    ensures
        stop_step(proxy, StopEvent::Requested { wait_for_first_connection: wait }).0 == proxy,
        stop_step(proxy, StopEvent::Requested { wait_for_first_connection: wait }).1
            == StopAction::Notify <==> !wait || proxy.connections > 0,
        ({
            let (told, next) = stop_step(proxy, StopEvent::Notified);
            &&& !told.running
            &&& proxy.running ==> next == StopAction::Join && told.listening == proxy.listening
            &&& !proxy.running ==> next == StopAction::Finish && !told.listening
        }),
        ({
            let (stopped, next) = stop_step(proxy, StopEvent::Joined);
            next == StopAction::Finish && !stopped.listening && !stopped.running
        }),
        stop_step(proxy, StopEvent::JoinFailed) == (
            proxy,
            StopAction::Fail(ProxyError::TaskFailed),
        ),
{
}

/// A proxy keeps its configuration and its hooks, whatever happens.
pub proof fn law_a_proxy_keeps_its_configuration(
    proxy: ProxyView,
    accept: AcceptEvent,
    stop: StopEvent,
    bound: bool,
)
    ensures
        accept_step(proxy, accept).0.config == proxy.config,
        accept_step(proxy, accept).0.hooks == proxy.hooks,
        accept_step(proxy, accept).0.listening == proxy.listening,
        accept_step(proxy, accept).0.running == proxy.running,
        stop_step(proxy, stop).0.config == proxy.config,
        stop_step(proxy, stop).0.hooks == proxy.hooks,
        start_result(proxy, bound) matches Ok(started) ==> started.config == proxy.config
            && started.hooks == proxy.hooks,
        unlistened(proxy).config == proxy.config,
        unlistened(proxy).hooks == proxy.hooks,
        unlistened(proxy).running == proxy.running,
        unlistened(proxy).connections == proxy.connections,
{
}

} // verus!
