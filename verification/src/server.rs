//! The accept loop: when to poll, when to wait, when to leave.
//!
//! A [`Server`] is the lifecycle of one listening socket. It never touches the
//! socket or the clock. The caller binds, accepts, runs the handler of each
//! connection and sleeps, reports each outcome as a [`ServerEvent`] to
//! [`Server::run`], and performs the [`ServerAction`] that comes back.
//! [`Server::stop`] may be called at any point in between, from wherever the
//! caller keeps the `Server`.

use vstd::prelude::*;

verus! {

/// How long to wait, in milliseconds, before polling again when no connection
/// was pending.
pub const POLL_INTERVAL_MILLIS: u64 = 100;

/// Where a server stands.
#[derive(Clone, Copy, Debug, PartialEq, Eq, Structural)]
pub enum Lifecycle {
    /// The socket is bound; the accept loop has not been entered.
    Created,
    /// The accept loop runs.
    Running,
    /// A stop was requested. No connection is accepted from here on.
    Stopped,
}

/// What happened in the accept loop.
#[derive(Clone, Copy, Debug, PartialEq, Eq, Structural)]
pub enum ServerEvent {
    /// The loop was entered: the socket is in non-blocking mode.
    Started,
    /// A poll gave a connection.
    Accepted,
    /// A poll found no connection pending.
    WouldBlock,
    /// A poll gave an error of another kind.
    AcceptFailed,
    /// The handler of the accepted connection has returned, with or without
    /// an error.
    Served,
    /// The wait is over.
    Waited,
}

/// What the accept loop does next.
#[derive(Clone, Copy, Debug, PartialEq, Eq, Structural)]
pub enum ServerAction {
    /// Poll the socket once, then report `Accepted`, `WouldBlock` or
    /// `AcceptFailed`.
    Accept,
    /// Run the handler of the accepted connection until it returns, then
    /// report `Served`.
    Serve,
    /// Sleep for `millis` milliseconds, then report `Waited`.
    Wait { millis: u64 },
    /// Leave the loop: the server has stopped, without error.
    Exit,
}

/// What a call of [`Server::stop`] found.
#[derive(Clone, Copy, Debug, PartialEq, Eq, Structural)]
pub enum StopOutcome {
    /// The server was not stopped before: the request is now set.
    Signalled,
    /// The server was stopped already: nothing has changed, and the caller
    /// warns.
    AlreadyStopped,
}

/// The state after the accept loop has been entered or gone round: a server
/// that was only created now runs.
pub open spec fn entered(state: Lifecycle) -> Lifecycle {
    match state {
        Lifecycle::Created => Lifecycle::Running,
        Lifecycle::Running => Lifecycle::Running,
        Lifecycle::Stopped => Lifecycle::Stopped,
    }
}

/// What the loop does at its head: leave if a stop was requested, else poll.
pub open spec fn poll_or_exit(state: Lifecycle) -> ServerAction {
    if state == Lifecycle::Stopped {
        ServerAction::Exit
    } else {
        ServerAction::Accept
    }
}

/// The accept loop's rule: the state after `event` and what to do next.
///
/// A connection that a poll gave is served, and an empty poll is followed by
/// a wait, whether or not a stop was requested meanwhile. After everything
/// else the loop is at its head again.
pub open spec fn run_step(state: Lifecycle, event: ServerEvent) -> (Lifecycle, ServerAction) {
    let next = entered(state);
    match event {
        ServerEvent::Accepted => (next, ServerAction::Serve),
        ServerEvent::WouldBlock => (next, ServerAction::Wait { millis: POLL_INTERVAL_MILLIS }),
        ServerEvent::Started | ServerEvent::AcceptFailed | ServerEvent::Served
        | ServerEvent::Waited => (next, poll_or_exit(next)),
    }
}

/// The rule of a stop request: the state after it and what it found.
pub open spec fn stop_step(state: Lifecycle) -> (Lifecycle, StopOutcome) {
    if state == Lifecycle::Stopped {
        (Lifecycle::Stopped, StopOutcome::AlreadyStopped)
    } else {
        (Lifecycle::Stopped, StopOutcome::Signalled)
    }
}

/// The lifecycle of one listening socket.
#[derive(Debug)]
pub struct Server {
    state: Lifecycle,
}

impl View for Server {
    type V = Lifecycle;

    closed spec fn view(&self) -> Lifecycle {
        self.state
    }
}

impl Server {
    /// The lifecycle of a socket that was just bound.
    pub fn new() -> (server: Server)
        ensures
            server@ == Lifecycle::Created,
    {
        Server { state: Lifecycle::Created }
    }

    /// Where the server stands.
    pub fn state(&self) -> (state: Lifecycle)
        ensures
            state == self@,
    {
        self.state
    }

    /// Takes in what happened in the accept loop and says what to do next.
    pub fn run(&mut self, event: ServerEvent) -> (action: ServerAction)
        ensures
            (final(self)@, action) == run_step(old(self)@, event),
    {
        if let Lifecycle::Created = self.state {
            self.state = Lifecycle::Running;
        }
        match event {
            ServerEvent::Accepted => ServerAction::Serve,
            ServerEvent::WouldBlock => ServerAction::Wait { millis: POLL_INTERVAL_MILLIS },
            ServerEvent::Started | ServerEvent::AcceptFailed | ServerEvent::Served
            | ServerEvent::Waited => {
                if let Lifecycle::Stopped = self.state {
                    ServerAction::Exit
                } else {
                    ServerAction::Accept
                }
            },
        }
    }

    /// Requests that the accept loop be left. A connection that is being
    /// served is not touched.
    pub fn stop(&mut self) -> (outcome: StopOutcome)
        ensures
            (final(self)@, outcome) == stop_step(old(self)@),
    {
        if let Lifecycle::Stopped = self.state {
            StopOutcome::AlreadyStopped
        } else {
            self.state = Lifecycle::Stopped;
            StopOutcome::Signalled
        }
    }
}

/// Once a stop is requested the loop never polls again, whatever is
/// reported, and the request stays set.
pub proof fn lemma_stopped_never_polls(event: ServerEvent)
    ensures
        run_step(Lifecycle::Stopped, event).0 == Lifecycle::Stopped,
        run_step(Lifecycle::Stopped, event).1 != ServerAction::Accept,
{
}

/// A stop ends the loop within one polling interval.
///
/// Whatever the state was before the stop and whatever is reported next, the
/// loop then leaves at once, or finishes the one thing it was in and leaves
/// after it: it serves the connection that the last poll gave, or waits once,
/// for `POLL_INTERVAL_MILLIS`.
pub proof fn lemma_stop_ends_loop(state: Lifecycle, event: ServerEvent)
    ensures
        ({
            let stopped = stop_step(state).0;
            let (after, action) = run_step(stopped, event);
            match action {
                ServerAction::Exit => true,
                ServerAction::Serve => event == ServerEvent::Accepted && run_step(
                    after,
                    ServerEvent::Served,
                ).1 == ServerAction::Exit,
                ServerAction::Wait { millis } => event == ServerEvent::WouldBlock && millis
                    == POLL_INTERVAL_MILLIS && run_step(after, ServerEvent::Waited).1
                    == ServerAction::Exit,
                ServerAction::Accept => false,
            }
        }),
{
}

/// A second stop changes nothing and says that the server was stopped
/// already.
pub proof fn lemma_stop_twice(state: Lifecycle)
    ensures
        stop_step(stop_step(state).0) == (Lifecycle::Stopped, StopOutcome::AlreadyStopped),
        state != Lifecycle::Stopped ==> stop_step(state).1 == StopOutcome::Signalled,
{
}

/// An idle loop does not spin: an empty poll is always followed by a wait of
/// `POLL_INTERVAL_MILLIS`, never by another poll.
pub proof fn lemma_idle_poll_waits(state: Lifecycle)
    ensures
        run_step(state, ServerEvent::WouldBlock).1 == (ServerAction::Wait {
            millis: POLL_INTERVAL_MILLIS,
        }),
{
}

/// Neither a connection that has ended, however it ended, nor a poll that
/// failed stops the server: unless a stop was requested, the loop polls again.
pub proof fn lemma_failures_keep_running(state: Lifecycle, event: ServerEvent)
    requires
        state != Lifecycle::Stopped,
        event == ServerEvent::Served || event == ServerEvent::AcceptFailed,
    ensures
        run_step(state, event) == (Lifecycle::Running, ServerAction::Accept),
{
}

} // verus!
