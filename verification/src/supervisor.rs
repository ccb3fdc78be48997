//! The concurrency supervisor's book-keeping: how many sessions are live,
//! whether new ones are taken, and when the listener stops.

use vstd::prelude::*;

verus! {

/// What the listener and the sessions report to the supervisor.
#[derive(Copy, Clone, Debug, PartialEq, Eq, Structural)]
pub enum SupervisorEvent {
    /// A connection has arrived.
    Connected,
    /// A session has ended, on the server's initiative or on the peer's.
    Disconnected { closed_from_server: bool },
    /// The operator asks for the server to shut down.
    ShutdownRequested,
}

/// What the supervisor has the caller do.
#[derive(Copy, Clone, Debug, PartialEq, Eq, Structural)]
pub enum SupervisorAction {
    /// Nothing.
    Continue,
    /// Start a session for the connection that arrived.
    Serve,
    /// Drop the connection that arrived.
    Refuse,
    /// Tell every live session to send its peer the disconnect message and
    /// to end.
    Broadcast,
    /// Leave the accept loop. With `announce`, say first that all clients
    /// have disconnected.
    Stop { announce: bool },
}

/// The supervisor's state, with the count as a natural number.
pub struct ShutdownView {
    pub live_connection_count: nat,
    pub stop_accepting: bool,
    pub shutdown_initiated_locally: bool,
}

impl ShutdownView {
    /// Whether the accept loop has ended: no connection is taken any more,
    /// and none is live.
    pub open spec fn terminated(self) -> bool {
        self.stop_accepting && self.live_connection_count == 0
    }
}

/// The supervisor's state after an event, and what the caller is to do.
///
/// A connection is served and counted unless connections are no longer
/// taken. A session that ends is taken off the count; when the count reaches
/// zero that way the listener stops, and the caller announces it if the peer
/// ended the last session. A request to shut down ends the taking of
/// connections at once; the listener stops if nothing is live, else every
/// session is told to end.
pub open spec fn supervisor_step(state: ShutdownView, event: SupervisorEvent) -> (
    ShutdownView,
    SupervisorAction,
) {
    match event {
        SupervisorEvent::Connected => if state.stop_accepting || state.live_connection_count
            >= usize::MAX {
            (state, SupervisorAction::Refuse)
        } else {
            (
                ShutdownView { live_connection_count: state.live_connection_count + 1, ..state },
                SupervisorAction::Serve,
            )
        },
        SupervisorEvent::Disconnected { closed_from_server } => if state.live_connection_count
            > 1 {
            (
                ShutdownView {
                    live_connection_count: (state.live_connection_count - 1) as nat,
                    ..state
                },
                SupervisorAction::Continue,
            )
        } else {
            (
                ShutdownView { live_connection_count: 0, stop_accepting: true, ..state },
                SupervisorAction::Stop { announce: !closed_from_server },
            )
        },
        SupervisorEvent::ShutdownRequested => (
            ShutdownView { stop_accepting: true, shutdown_initiated_locally: true, ..state },
            if state.live_connection_count == 0 {
                SupervisorAction::Stop { announce: false }
            } else {
                SupervisorAction::Broadcast
            },
        ),
    }
}

/// The supervisor's state after a run of events.
pub open spec fn after_events(state: ShutdownView, events: Seq<SupervisorEvent>) -> ShutdownView
    decreases events.len(),
{
    if events.len() == 0 {
        state
    } else {
        supervisor_step(after_events(state, events.drop_last()), events.last()).0
    }
}

/// The number of sessions that end in a run of events.
pub open spec fn disconnections(events: Seq<SupervisorEvent>) -> nat
    decreases events.len(),
{
    if events.len() == 0 {
        0
    } else {
        disconnections(events.drop_last()) + if events.last() is Disconnected {
            1nat
        } else {
            0nat
        }
    }
}

/// Once a shutdown has been requested, with any number of sessions live,
/// the listener has stopped exactly when the count of live sessions is zero,
/// whatever happens and in whatever order: no connection is counted any
/// more, each session that ends takes one off the count, whoever ended it,
/// and the count is zero exactly when as many sessions have ended as were
/// live.
pub proof fn lemma_shutdown_stops_at_zero(state: ShutdownView, events: Seq<SupervisorEvent>)
    requires
        state.stop_accepting,
        state.shutdown_initiated_locally,
    ensures
        ({
            let end = after_events(state, events);
            &&& end.stop_accepting
            &&& end.shutdown_initiated_locally
            &&& end.terminated() == (end.live_connection_count == 0)
            &&& end.live_connection_count == if disconnections(events)
                >= state.live_connection_count {
                0
            } else {
                state.live_connection_count - disconnections(events)
            }
            &&& end.terminated() == (disconnections(events) >= state.live_connection_count)
        }),
    decreases events.len(),
{
    if events.len() > 0 {
        lemma_shutdown_stops_at_zero(state, events.drop_last());
    }
}

/// A listener that has stopped taking connections never takes one again, and
/// its count of live sessions never grows; and a listener that still takes
/// connections has never been asked to shut down.
pub proof fn lemma_stop_is_final(state: ShutdownView, events: Seq<SupervisorEvent>)
    requires
        state.shutdown_initiated_locally ==> state.stop_accepting,
    ensures
        state.stop_accepting ==> after_events(state, events).stop_accepting,
        after_events(state, events).shutdown_initiated_locally ==> after_events(
            state,
            events,
        ).stop_accepting,
        state.stop_accepting ==> after_events(state, events).live_connection_count
            <= state.live_connection_count,
    decreases events.len(),
{
    if events.len() > 0 {
        lemma_stop_is_final(state, events.drop_last());
    }
}

/// The state that all sessions and the operator's console share.
#[derive(Clone, Debug, PartialEq, Eq)]
pub struct ShutdownState {
    live_connection_count: usize,
    stop_accepting: bool,
    shutdown_initiated_locally: bool,
}

impl View for ShutdownState {
    type V = ShutdownView;

    closed spec fn view(&self) -> ShutdownView {
        ShutdownView {
            live_connection_count: self.live_connection_count as nat,
            stop_accepting: self.stop_accepting,
            shutdown_initiated_locally: self.shutdown_initiated_locally,
        }
    }
}

impl ShutdownState {
    /// The state of a server that has just started.
    pub fn new() -> (out: ShutdownState)
        ensures
            out@ == (ShutdownView {
                live_connection_count: 0,
                stop_accepting: false,
                shutdown_initiated_locally: false,
            }),
    {
        ShutdownState {
            live_connection_count: 0,
            stop_accepting: false,
            shutdown_initiated_locally: false,
        }
    }

    /// The number of live sessions.
    pub fn live_connection_count(&self) -> (out: usize)
        ensures
            out == self@.live_connection_count,
    {
        self.live_connection_count
    }

    /// Whether connections are no longer taken.
    pub fn stop_accepting(&self) -> (out: bool)
        ensures
            out == self@.stop_accepting,
    {
        self.stop_accepting
    }

    /// Whether the operator has asked for the shutdown.
    pub fn shutdown_initiated_locally(&self) -> (out: bool)
        ensures
            out == self@.shutdown_initiated_locally,
    {
        self.shutdown_initiated_locally
    }

    /// Whether the accept loop has ended.
    pub fn terminated(&self) -> (out: bool)
        ensures
            out == self@.terminated(),
    {
        self.stop_accepting && self.live_connection_count == 0
    }

    /// Stops the listener if no session is live. Where it stops, the caller
    /// is to announce that all clients have disconnected unless the server
    /// closed the last session itself.
    pub fn check_clients_number_and_stop(&mut self, closed_from_server: bool) -> (out:
        SupervisorAction)
        ensures
            out == if old(self)@.live_connection_count == 0 {
                SupervisorAction::Stop { announce: !closed_from_server }
            } else {
                SupervisorAction::Continue
            },
            final(self)@ == if old(self)@.live_connection_count == 0 {
                ShutdownView { stop_accepting: true, ..old(self)@ }
            } else {
                old(self)@
            },
    {
        if self.live_connection_count == 0 {
            self.stop_accepting = true;
            SupervisorAction::Stop { announce: !closed_from_server }
        } else {
            SupervisorAction::Continue
        }
    }

    /// Takes an event and says what the caller is to do.
    pub fn handle(&mut self, event: SupervisorEvent) -> (out: SupervisorAction)
        ensures
            (final(self)@, out) == supervisor_step(old(self)@, event),
    {
        match event {
            SupervisorEvent::Connected => {
                if self.stop_accepting || self.live_connection_count == usize::MAX {
                    SupervisorAction::Refuse
                } else {
                    self.live_connection_count = self.live_connection_count + 1;
                    SupervisorAction::Serve
                }
            },
            SupervisorEvent::Disconnected { closed_from_server } => {
                if self.live_connection_count > 0 {
                    self.live_connection_count = self.live_connection_count - 1;
                }
                self.check_clients_number_and_stop(closed_from_server)
            },
            SupervisorEvent::ShutdownRequested => {
                self.shutdown_initiated_locally = true;
                match self.check_clients_number_and_stop(true) {
                    SupervisorAction::Stop { announce } => SupervisorAction::Stop { announce },
                    _ => {
                        self.stop_accepting = true;
                        SupervisorAction::Broadcast
                    },
                }
            },
        }
    }
}

} // verus!
