//! The life of one connection as a state machine: both loops running, one
//! loop ended and the other being cancelled, everything released.

use vstd::prelude::*;

verus! {

/// Where a connection stands.
#[derive(Debug, Clone, Copy, PartialEq, Eq, Structural)]
pub enum ConnectionState {
    /// The receive loop and the send loop are both running.
    Active,
    /// One loop has ended; the other is being cancelled.
    Closing,
    /// The session is out of the registry; nothing is left to do.
    Terminated,
}

/// One of the two loops of a connection.
#[derive(Debug, Clone, Copy, PartialEq, Eq, Structural)]
pub enum LoopSide {
    Receive,
    Send,
}

/// What happened to a connection.
#[derive(Debug, Clone, Copy, PartialEq, Eq, Structural)]
pub enum ConnectionEvent {
    /// The given loop ended of itself.
    LoopEnded(LoopSide),
    /// The loop that was being cancelled has stopped or has been abandoned.
    SiblingStopped,
}

/// What the driver has to do next.
#[derive(Debug, Clone, Copy, PartialEq, Eq, Structural)]
pub enum ConnectionAction {
    /// Cancel the given loop, without waiting for it indefinitely.
    Cancel(LoopSide),
    /// Remove the session from the registry and release the connection.
    RemoveSession,
    /// Nothing.
    Nothing,
}

impl LoopSide {
    /// The other loop of the connection.
    pub open spec fn sibling(self) -> LoopSide {
        match self {
            LoopSide::Receive => LoopSide::Send,
            LoopSide::Send => LoopSide::Receive,
        }
    }

    /// The other loop of the connection.
    pub fn other(self) -> (side: LoopSide)
        ensures
            side == self.sibling(),
    {
        match self {
            LoopSide::Receive => LoopSide::Send,
            LoopSide::Send => LoopSide::Receive,
        }
    }
}

impl ConnectionState {
    /// The state after `event`, and what the driver has to do. The first
    /// loop to end has its sibling cancelled; once that has stopped the
    /// session is removed; after that nothing happens any more.
    pub open spec fn next(self, event: ConnectionEvent) -> (ConnectionState, ConnectionAction) {
        match (self, event) {
            (ConnectionState::Active, ConnectionEvent::LoopEnded(side)) => (
                ConnectionState::Closing,
                ConnectionAction::Cancel(side.sibling()),
            ),
            (ConnectionState::Active, ConnectionEvent::SiblingStopped) => (
                ConnectionState::Active,
                ConnectionAction::Nothing,
            ),
            (ConnectionState::Closing, _) => (
                ConnectionState::Terminated,
                ConnectionAction::RemoveSession,
            ),
            (ConnectionState::Terminated, _) => (
                ConnectionState::Terminated,
                ConnectionAction::Nothing,
            ),
        }
    }

    /// The state of a connection that has just been accepted.
    pub fn start() -> (state: ConnectionState)
        ensures
            state == ConnectionState::Active,
    {
        ConnectionState::Active
    }

    /// Takes one event: see [`ConnectionState::next`].
    pub fn on_event(self, event: ConnectionEvent) -> (step: (ConnectionState, ConnectionAction))
        ensures
            step == self.next(event),
    {
        match self {
            ConnectionState::Active => match event {
                ConnectionEvent::LoopEnded(side) => (
                    ConnectionState::Closing,
                    ConnectionAction::Cancel(side.other()),
                ),
                ConnectionEvent::SiblingStopped => (
                    ConnectionState::Active,
                    ConnectionAction::Nothing,
                ),
            },
            ConnectionState::Closing => (
                ConnectionState::Terminated,
                ConnectionAction::RemoveSession,
            ),
            ConnectionState::Terminated => (ConnectionState::Terminated, ConnectionAction::Nothing),
        }
    }
}

/// The state after a sequence of events, starting from `state`.
pub open spec fn state_after(state: ConnectionState, events: Seq<ConnectionEvent>) -> ConnectionState
    decreases events.len(),
{
    if events.len() == 0 {
        state
    } else {
        state_after(state.next(events[0]).0, events.drop_first())
    }
}

/// How often the session is removed over a sequence of events, starting
/// from `state`.
pub open spec fn removals(state: ConnectionState, events: Seq<ConnectionEvent>) -> nat
    decreases events.len(),
{
    if events.len() == 0 {
        0
    } else {
        let step = state.next(events[0]);
        let here: nat = if step.1 == ConnectionAction::RemoveSession {
            1
        } else {
            0
        };
        here + removals(step.0, events.drop_first())
    }
}

/// Whichever loop ends first, the other one is cancelled, and the next
/// event of any kind terminates the connection and removes the session.
pub proof fn lemma_first_loop_to_end_closes(side: LoopSide, then: ConnectionEvent)
    ensures
        ConnectionState::Active.next(ConnectionEvent::LoopEnded(side)) == (
            ConnectionState::Closing,
            ConnectionAction::Cancel(side.sibling()),
        ),
        ConnectionState::Closing.next(then) == (
            ConnectionState::Terminated,
            ConnectionAction::RemoveSession,
        ),
{
}

/// Over any sequence of events the session is removed at most once, and
/// exactly once if the connection ends up terminated without having started
/// so.
pub proof fn lemma_session_removed_once(state: ConnectionState, events: Seq<ConnectionEvent>)
    ensures
        removals(state, events) <= 1,
        state == ConnectionState::Terminated ==> removals(state, events) == 0 && state_after(
            state,
            events,
        ) == ConnectionState::Terminated,
        state != ConnectionState::Terminated && state_after(state, events)
            == ConnectionState::Terminated ==> removals(state, events) == 1,
        state != ConnectionState::Terminated && state_after(state, events)
            != ConnectionState::Terminated ==> removals(state, events) == 0,
    decreases events.len(),
{
    if events.len() > 0 {
        lemma_session_removed_once(state.next(events[0]).0, events.drop_first());
    }
}

} // verus!
