//! One session per live connection: an identifier, the time of the last
//! inbound frame, and the sending end of a bounded outbound queue.

use crate::message::{wire_text, SocketResponse};
use crate::socket::frame::{Frame, FrameView};
use crate::utils::id_util::{is_random_uuid_text, uuid};
use crate::utils::text_util::same_text;
use crate::utils::time_util::current_timestamp;
use flume::{Sender, TrySendError};
use std::sync::RwLock;
use vstd::prelude::*;

verus! {

#[verifier::external_type_specification]
#[verifier::external_body]
#[verifier::reject_recursive_types(T)]
pub struct ExSender<T>(Sender<T>);

#[verifier::external_type_specification]
#[verifier::external_body]
#[verifier::reject_recursive_types(T)]
pub struct ExRwLock<T: ?Sized>(RwLock<T>);

/// Idle time, in milliseconds, after which a session counts as expired.
pub const EXPIRY_MILLIS: u128 = 120000;

/// What became of one attempt to put a frame on an outbound queue.
#[derive(Debug, Clone, Copy, PartialEq, Eq)]
pub enum Enqueue {
    /// The frame is on the queue.
    Queued,
    /// The queue was full; the frame was dropped.
    Full,
    /// The receiving end is gone; the frame was dropped.
    Disconnected,
}

/// Why a send failed.
#[derive(Debug, Clone, Copy, PartialEq, Eq)]
pub enum SendError {
    /// The connection's send loop has ended: nothing can be delivered.
    SessionClosed,
    /// The response could not be written as JSON text.
    Serialization,
}

/// Whether a session last active at `last_active` is expired at `now`: at
/// least [`EXPIRY_MILLIS`] have passed.
pub open spec fn expired_at(last_active: u128, now: u128) -> bool {
    now - last_active >= EXPIRY_MILLIS
}

/// What a send reports for each outcome of the enqueue: a full queue sheds
/// the frame without an error, a disconnected one is fatal for the call.
pub open spec fn delivery(outcome: Enqueue) -> Result<(), SendError> {
    match outcome {
        Enqueue::Queued => Ok(()),
        Enqueue::Full => Ok(()),
        Enqueue::Disconnected => Err(SendError::SessionClosed),
    }
}

/// Decides expiry from the two timestamps. The boundary is inclusive, and a
/// `now` earlier than `last_active` is not expired.
pub fn is_expired_at(last_active: u128, now: u128) -> (expired: bool)
    ensures
        expired == expired_at(last_active, now),
{
    now >= last_active && now - last_active >= EXPIRY_MILLIS
}

/// Turns the outcome of an enqueue into the result of the send.
pub fn delivery_result(outcome: Enqueue) -> (result: Result<(), SendError>)
    ensures
        result == delivery(outcome),
{
    match outcome {
        Enqueue::Queued => Ok(()),
        Enqueue::Full => Ok(()),
        Enqueue::Disconnected => Err(SendError::SessionClosed),
    }
}

/// The frame, if any, that the idle check sends to a session last active at
/// `last_active`: the expiry notice when it is expired at `now`.
pub fn idle_verdict(last_active: u128, now: u128) -> (notice: Option<Frame>)
    ensures
        match notice {
            Some(frame) => expired_at(last_active, now) && frame@ == FrameView::expiry_notice(),
            None => !expired_at(last_active, now),
        },
{
    if is_expired_at(last_active, now) {
        Some(Frame::expiry_notice())
    } else {
        None
    }
}

/// The text frame that carries a response, or the serialization error where
/// the response cannot be written as JSON.
pub fn response_frame(response: &SocketResponse) -> (frame: Result<Frame, SendError>)
    ensures
        match frame {
            Ok(carrier) => wire_text(response@) matches Some(text) && carrier@ == FrameView::Text(
                text,
            ),
            Err(error) => wire_text(response@) is None && error == SendError::Serialization,
        },
{
    match response.as_json() {
        Ok(text) => Ok(Frame::Text(text)),
        Err(_) => Err(SendError::Serialization),
    }
}

/// A session whose last activity has just been recorded is not expired: not
/// at the recorded instant itself, and at no instant less than the idle
/// limit after it.
pub proof fn lemma_fresh_activity_not_expired(recorded: u128)
    ensures
        !expired_at(recorded, recorded),
        forall|now: u128| now - recorded < EXPIRY_MILLIS ==> !expired_at(recorded, now),
{
}

/// Expiry begins exactly at the idle limit and never ends: a session is
/// expired at `now` exactly when `now` is at least [`EXPIRY_MILLIS`] after
/// its last activity.
pub proof fn lemma_expiry_starts_at_the_limit(last_active: u128, now: u128)
    ensures
        expired_at(last_active, now) <==> now >= last_active + EXPIRY_MILLIS,
        now == last_active + EXPIRY_MILLIS - 1 ==> !expired_at(last_active, now),
        now == last_active + EXPIRY_MILLIS ==> expired_at(last_active, now),
{
}

/// `flume::Sender::try_send`: one attempt to enqueue without blocking. Other
/// holders of the channel act at the same time, so nothing is claimed of which
/// outcome comes back.
#[verifier::external_body]
fn try_enqueue(sink: &Sender<Frame>, frame: Frame) -> Enqueue {
    match sink.try_send(frame) {
        Ok(()) => Enqueue::Queued,
        Err(TrySendError::Full(_)) => Enqueue::Full,
        Err(TrySendError::Disconnected(_)) => Enqueue::Disconnected,
    }
}

/// `RwLock::new`: a lock around a timestamp.
#[verifier::external_body]
fn new_clock(at: u128) -> RwLock<u128> {
    RwLock::new(at)
}

/// `RwLock::read`: the timestamp in the lock at the moment of the call. A
/// writer may have changed it since it was last written here, so nothing is
/// claimed of the value.
#[verifier::external_body]
fn read_clock(clock: &RwLock<u128>) -> u128 {
    match clock.read() {
        Ok(guard) => *guard,
        Err(poisoned) => *poisoned.into_inner(),
    }
}

/// `RwLock::write`: stores a timestamp in the lock. A poisoned lock is left
/// as it is.
#[verifier::external_body]
fn write_clock(clock: &RwLock<u128>, at: u128) {
    if let Ok(mut guard) = clock.write() {
        *guard = at;
    }
}

/// The server's handle on one live connection.
#[derive(Debug)]
pub struct Session {
    pub id: String,
    sink: Sender<Frame>,
    last_active_timestamp: RwLock<u128>,
}

impl Session {
    /// The session's identifier.
    pub closed spec fn id_text(&self) -> Seq<char> {
        self.id@
    }

    /// The sending end of the session's outbound queue.
    pub closed spec fn outbound(&self) -> Sender<Frame> {
        self.sink
    }

    /// A session over the given outbound queue, with a fresh identifier and
    /// its last activity set to the current time.
    pub fn new(sink: Sender<Frame>) -> (session: Session)
        ensures
            is_random_uuid_text(session.id_text()),
            session.outbound() == sink,
    {
        Session { sink, id: uuid(), last_active_timestamp: new_clock(current_timestamp()) }
    }

    /// The session's identifier.
    pub fn id(&self) -> (id: &str)
        ensures
            id@ == self.id_text(),
    {
        self.id.as_str()
    }

    /// Records `now` as the time of the last inbound frame.
    pub fn record_activity(&self, now: u128) {
        write_clock(&self.last_active_timestamp, now);
    }

    /// Records the current time as the time of the last inbound frame.
    pub fn update_active_time(&self) {
        self.record_activity(current_timestamp());
    }

    /// The time of the last inbound frame, as it stands at the moment of the
    /// call.
    pub fn last_active_at(&self) -> u128 {
        read_clock(&self.last_active_timestamp)
    }

    /// Whether the session has been idle for [`EXPIRY_MILLIS`] or more at
    /// `current_timestamp`. The decision is [`is_expired_at`] on the recorded
    /// time of the last inbound frame. That time sits behind a lock which
    /// other holders of the session write, so the contract says what holds
    /// whatever it is: before the idle limit has passed on the clock itself,
    /// no session is expired.
    pub fn is_expired(&self, current_timestamp: u128) -> (expired: bool)
        ensures
            expired ==> current_timestamp >= EXPIRY_MILLIS,
    {
        is_expired_at(self.last_active_at(), current_timestamp)
    }

    /// Sends the expiry notice if the session is expired at `now`, and says
    /// whether it did. Whatever the recorded time of the last inbound frame,
    /// no notice goes out before the idle limit has passed on the clock
    /// itself.
    pub fn close_if_expired(&self, now: u128) -> (closed: bool)
        ensures
            closed ==> now >= EXPIRY_MILLIS,
    {
        match idle_verdict(self.last_active_at(), now) {
            Some(notice) => {
                let _ = self.send_message(notice);
                true
            },
            None => false,
        }
    }

    /// Puts a frame on the outbound queue without blocking. A full queue
    /// drops the frame and is no error; a queue whose receiving end is gone
    /// fails with [`SendError::SessionClosed`].
    pub fn send_message(&self, frame: Frame) -> (sent: Result<(), SendError>)
        ensures
            sent matches Err(error) ==> error == SendError::SessionClosed,
    {
        delivery_result(try_enqueue(&self.sink, frame))
    }

    /// Writes the response as JSON and sends it as a text frame. A response
    /// that cannot be written fails with [`SendError::Serialization`] and
    /// nothing is sent.
    pub fn send_response(&self, response: SocketResponse) -> (sent: Result<(), SendError>)
        ensures
            wire_text(response@) is None ==> sent == Err::<(), SendError>(SendError::Serialization),
            wire_text(response@) is Some ==> sent != Err::<(), SendError>(SendError::Serialization),
    {
        match response_frame(&response) {
            Ok(carrier) => self.send_message(carrier),
            Err(error) => Err(error),
        }
    }
}

impl PartialEq for Session {
    /// Two sessions are equal when they have the same identifier.
    fn eq(&self, other: &Session) -> (equal: bool) {
        same_text(self.id.as_str(), other.id.as_str())
    }
}

impl vstd::std_specs::cmp::PartialEqSpecImpl for Session {
    open spec fn obeys_eq_spec() -> bool {
        true
    }

    open spec fn eq_spec(&self, other: &Session) -> bool {
        self.id_text() == other.id_text()
    }
}

impl Eq for Session {

}

impl std::hash::Hash for Session {
    /// A session is hashed by its identifier.
    #[verifier::external_body]
    fn hash<H: std::hash::Hasher>(&self, state: &mut H) {
        self.id.hash(state);
    }
}

} // verus!
