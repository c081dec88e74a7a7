//! The session registry, shared by every connection and by the idle check,
//! together with the command dispatcher.

use crate::processor::echo::EchoCommandProcessor;
use crate::processor::{CommandDispatcher, CommandProcessor};
use crate::socket::frame::Frame;
use crate::socket::session::{Session, EXPIRY_MILLIS};
use crate::utils::id_util::is_random_uuid_text;
use crate::utils::time_util::current_timestamp;
use dashmap::DashMap;
use flume::Sender;
use std::sync::Arc;
use vstd::prelude::*;

verus! {

#[verifier::external_type_specification]
#[verifier::external_body]
#[verifier::reject_recursive_types(K)]
#[verifier::reject_recursive_types(V)]
#[verifier::reject_recursive_types(S)]
pub struct ExDashMap<K, V, S>(DashMap<K, V, S>);

/// Seconds between two idle checks.
pub const SWEEP_INTERVAL_SECS: u64 = 120;

/// `DashMap::new`: an empty concurrent map.
#[verifier::external_body]
fn new_registry() -> DashMap<String, Arc<Session>> {
    DashMap::new()
}

/// `DashMap::insert`: stores the session under the key, in place of any
/// session stored there before. The map is shared, so nothing is claimed of
/// what it holds afterwards.
#[verifier::external_body]
fn registry_insert(registry: &DashMap<String, Arc<Session>>, id: String, session: Arc<Session>) {
    registry.insert(id, session);
}

/// `DashMap::remove`: takes the entry under the key out of the map, if there
/// is one. The map is shared, so nothing is claimed of what it holds
/// afterwards.
#[verifier::external_body]
fn registry_remove(registry: &DashMap<String, Arc<Session>>, id: &str) {
    registry.remove(id);
}

/// `DashMap::contains_key`: whether the map holds an entry under the key at
/// the moment of the call.
#[verifier::external_body]
fn registry_contains(registry: &DashMap<String, Arc<Session>>, id: &str) -> bool {
    registry.contains_key(id)
}

/// `DashMap::len`: the number of entries at the moment of the call.
#[verifier::external_body]
fn registry_len(registry: &DashMap<String, Arc<Session>>) -> usize {
    registry.len()
}

/// `DashMap::iter`: the sessions that one walk over the map meets. Entries
/// added or removed during the walk may or may not be among them.
#[verifier::external_body]
fn registry_sessions(registry: &DashMap<String, Arc<Session>>) -> Vec<Arc<Session>> {
    registry.iter().map(|entry| entry.value().clone()).collect()
}

/// `Arc::clone`: another handle on the same session.
#[verifier::external_body]
pub(crate) fn share_session(session: &Arc<Session>) -> (shared: Arc<Session>)
    ensures
        shared == *session,
{
    session.clone()
}

/// Sends the expiry notice to each of `sessions` that is expired at `now`,
/// and returns how many notices it sent: at most one for each session, and
/// none before the idle limit has passed on the clock itself. Which sessions
/// are expired is for their recorded times to say.
pub fn close_expired(sessions: &Vec<Arc<Session>>, now: u128) -> (closed: usize)
    ensures
        closed <= sessions@.len(),
        now < EXPIRY_MILLIS ==> closed == 0,
{
    let mut closed: usize = 0;
    let mut index: usize = 0;
    while index < sessions.len()
        invariant
            index <= sessions@.len(),
            closed <= index,
            now < EXPIRY_MILLIS ==> closed == 0,
        decreases sessions@.len() - index,
    {
        if sessions[index].close_if_expired(now) {
            closed = closed + 1;
        }
        index = index + 1;
    }
    closed
}

/// The state that all connections share: the registry of live sessions and
/// the dispatcher.
pub struct WebSocketBackend<P: CommandProcessor = EchoCommandProcessor> {
    sessions: DashMap<String, Arc<Session>>,
    command_dispatcher: CommandDispatcher<P>,
}

impl WebSocketBackend<EchoCommandProcessor> {
    /// A backend with an empty registry and the echo handler registered.
    pub fn new() -> (backend: WebSocketBackend<EchoCommandProcessor>)
        ensures
            backend.dispatcher().wf(),
            backend.dispatcher().handlers() == seq![EchoCommandProcessor {  }],
    {
        WebSocketBackend::with_dispatcher(CommandDispatcher::new())
    }
}

impl<P: CommandProcessor> WebSocketBackend<P> {
    /// The backend's dispatcher.
    pub closed spec fn dispatcher(&self) -> CommandDispatcher<P> {
        self.command_dispatcher
    }

    /// A backend with an empty registry and the given dispatcher.
    pub fn with_dispatcher(command_dispatcher: CommandDispatcher<P>) -> (backend: WebSocketBackend<
        P,
    >)
        ensures
            backend.dispatcher() == command_dispatcher,
    {
        WebSocketBackend { sessions: new_registry(), command_dispatcher }
    }

    /// Creates a session over the given outbound queue, stores it in the
    /// registry under its identifier and returns a handle on it.
    pub fn create_session(&self, sink: Sender<Frame>) -> (session: Arc<Session>)
        ensures
            is_random_uuid_text(session.id_text()),
            session.outbound() == sink,
    {
        let session = Arc::new(Session::new(sink));
        let duplicate = share_session(&session);
        registry_insert(&self.sessions, session.id().to_owned(), session);
        duplicate
    }

    /// Removes the session with the given identifier from the registry.
    /// Where there is none, nothing happens.
    pub fn drop_session(&self, session_id: &str) {
        registry_remove(&self.sessions, session_id);
    }

    /// Whether the registry holds a session with the given identifier at the
    /// moment of the call.
    pub fn has_session(&self, session_id: &str) -> bool {
        registry_contains(&self.sessions, session_id)
    }

    /// The number of sessions in the registry at the moment of the call.
    pub fn session_count(&self) -> usize {
        registry_len(&self.sessions)
    }

    /// The dispatcher.
    pub fn get_command_dispatcher(&self) -> (dispatcher: &CommandDispatcher<P>)
        ensures
            *dispatcher == self.dispatcher(),
    {
        &self.command_dispatcher
    }

    /// One idle check at the given time: walks the registry once and sends
    /// the expiry notice to every session met that is expired at `now`. No
    /// session is removed. Returns how many notices it sent: none before the
    /// idle limit has passed on the clock itself.
    pub fn close_expired_sessions(&self, now: u128) -> (closed: usize)
        ensures
            now < EXPIRY_MILLIS ==> closed == 0,
    {
        let sessions = registry_sessions(&self.sessions);
        close_expired(&sessions, now)
    }

    /// One idle check at the current time, which is read once for the whole
    /// walk.
    pub fn check_sessions(&self) -> usize {
        self.close_expired_sessions(current_timestamp())
    }
}

} // verus!
