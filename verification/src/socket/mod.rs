//! Sessions, the session registry and the per-connection driver.

pub mod backend;
pub mod connection;
pub mod frame;
pub mod session;

pub use backend::WebSocketBackend;
pub use frame::{CloseFrame, Frame};
pub use session::Session;

use crate::message::json::{json_tree, parsed_json};
use crate::message::{
    decodes_to, is_envelope, member_text, quoted, wire_text, Command, CommandView, SocketResponse,
    SocketResponseView,
};
use crate::processor::echo::EchoCommandProcessor;
use crate::processor::CommandProcessor;
use crate::socket::backend::share_session;
use crate::socket::frame::FrameView;
use crate::utils::id_util::{is_random_uuid_text, uuid};
use crate::utils::text_util::{lowercase_text, lowercased, same_text, trim_text, trimmed};
use flume::Sender;
use std::sync::Arc;
use vstd::prelude::*;

verus! {

/// The number of frames that a session's outbound queue holds at most.
pub const OUTBOUND_CAPACITY: usize = 128;

/// What the receive loop does with one inbound frame.
pub enum Plan {
    /// Send this frame back and go on.
    Reply(Frame),
    /// Hand this command to the dispatcher and go on.
    Dispatch(Command),
    /// Send this response back and go on: the text was no command.
    Reject(SocketResponse),
    /// Send this close frame back, remove the session and stop.
    Close(Frame),
}

/// Whether the loop goes on after a frame.
#[derive(Debug, Clone, Copy, PartialEq, Eq, Structural)]
pub enum Flow {
    Continue,
    Stop,
}

/// Whether a text is the keep-alive word: `ping` in any case, with any
/// white space around it.
pub open spec fn is_keepalive(text: Seq<char>) -> bool {
    lowercased(trimmed(text)) == "ping"@
}

/// Whether a frame counts as activity of the client: text, ping and pong
/// do, binary and close do not.
pub open spec fn renews_activity(frame: FrameView) -> bool {
    frame is Text || frame is Ping || frame is Pong
}

/// The response to a text that is no command: the bad-command preset,
/// without `op`, `channel`, `data` or `requestId`.
pub open spec fn bad_command() -> SocketResponseView {
    SocketResponseView::success().with_status("4001"@, "bad command"@)
}

/// The command with its request identifier replaced by `id`.
pub open spec fn with_request_id(command: CommandView, id: Seq<char>) -> CommandView {
    CommandView { request_id: Some(id), ..command }
}

/// Whether `plan` is what the rules ask for `frame`:
/// - the keep-alive word is answered with the text `pong`;
/// - any other text is trimmed and decoded, and then dispatched as the
///   command it holds, or rejected where it holds none;
/// - a ping is answered with a pong of the same payload, and a pong with a
///   ping of the same payload;
/// - a binary frame is answered with a text that says it is unsupported;
/// - a close frame is echoed, and ends the loop.
pub open spec fn plan_fulfils(frame: FrameView, plan: Plan) -> bool {
    match frame {
        FrameView::Text(text) => if is_keepalive(text) {
            plan matches Plan::Reply(reply) && reply@ == FrameView::Text("pong"@)
        } else if parsed_json(trimmed(text)) is Some && is_envelope(
            json_tree(parsed_json(trimmed(text))->0),
        ) {
            plan matches Plan::Dispatch(command) && decodes_to(
                json_tree(parsed_json(trimmed(text))->0),
                command@,
            )
        } else {
            plan matches Plan::Reject(response) && response@ == bad_command()
        },
        FrameView::Binary(_) => plan matches Plan::Reply(reply) && reply@ == FrameView::Text(
            "Binary data type is not supported"@,
        ),
        FrameView::Ping(payload) => plan matches Plan::Reply(reply) && reply@ == FrameView::Pong(
            payload,
        ),
        FrameView::Pong(payload) => plan matches Plan::Reply(reply) && reply@ == FrameView::Ping(
            payload,
        ),
        FrameView::Close(status) => plan matches Plan::Close(echo) && echo@ == FrameView::Close(
            status,
        ),
    }
}

/// On the wire the bad-command response holds its code and its message and
/// nothing else: no `op`, no `channel`, no `data`, no `requestId`.
pub proof fn lemma_bad_command_on_the_wire()
    ensures
        bad_command().op is None,
        bad_command().request_id is None,
        wire_text(bad_command()) matches Some(text) ==> text == "{\"code\":"@ + quoted(
            "4001"@,
        )->0 + ",\"message\":"@ + quoted("bad command"@)->0 + "}"@,
{
    let empty = Seq::<char>::empty();
    assert(member_text("op"@, None) == empty);
    assert(member_text("channel"@, None) == empty);
    assert(member_text("data"@, None) == empty);
    assert(member_text("requestId"@, None) == empty);
    let head = "{\"code\":"@ + quoted("4001"@)->0 + ",\"message\":"@ + quoted(
        "bad command"@,
    )->0;
    assert(head + empty =~= head);
}

/// Whether a frame counts as activity of the client.
pub fn counts_as_activity(frame: &Frame) -> (renews: bool)
    ensures
        renews == renews_activity(frame@),
{
    match frame {
        Frame::Text(_) => true,
        Frame::Ping(_) => true,
        Frame::Pong(_) => true,
        Frame::Binary(_) => false,
        Frame::Close(_) => false,
    }
}

/// Whether an already trimmed text, put in lower case, is the keep-alive
/// word.
pub fn is_keepalive_word(lowered: &str) -> (keepalive: bool)
    ensures
        keepalive == (lowered@ == "ping"@),
{
    same_text(lowered, "ping")
}

/// The response to a text that is no command.
pub fn bad_command_response() -> (response: SocketResponse)
    ensures
        response@ == bad_command(),
{
    SocketResponse::default().with_bad_command()
}

/// Plans the answer to a text frame.
pub fn plan_text(text: &str) -> (plan: Plan)
    ensures
        plan_fulfils(FrameView::Text(text@), plan),
{
    let message = trim_text(text);
    let lowered = lowercase_text(message);
    if is_keepalive_word(lowered.as_str()) {
        Plan::Reply(Frame::text("pong"))
    } else {
        match Command::decode(message) {
            Some(command) => Plan::Dispatch(command),
            None => Plan::Reject(bad_command_response()),
        }
    }
}

/// Plans the answer to an inbound frame. Planning sends nothing and
/// changes nothing.
pub fn plan_frame(frame: Frame) -> (plan: Plan)
    ensures
        plan_fulfils(frame@, plan),
{
    match frame {
        Frame::Text(text) => plan_text(text.as_str()),
        Frame::Binary(_) => Plan::Reply(Frame::text("Binary data type is not supported")),
        Frame::Ping(payload) => Plan::Reply(Frame::Pong(payload)),
        Frame::Pong(payload) => Plan::Reply(Frame::Ping(payload)),
        Frame::Close(status) => Plan::Close(Frame::Close(status)),
    }
}

/// Gives a command the request identifier `fresh` unless it has one.
pub fn assign_request_id(command: Command, fresh: String) -> (assigned: Command)
    ensures
        command@.request_id is Some ==> assigned@ == command@,
        command@.request_id is None ==> assigned@ == with_request_id(command@, fresh@),
{
    if command.request_id.is_none() {
        let mut assigned = command;
        assigned.request_id = Some(fresh);
        assigned
    } else {
        command
    }
}

/// Gives a command a freshly generated request identifier unless it has
/// one. An identifier that is there is passed through as it is.
pub fn ensure_request_id(command: Command) -> (assigned: Command)
    ensures
        command@.request_id is Some ==> assigned@ == command@,
        command@.request_id is None ==> exists|id: Seq<char>|
            is_random_uuid_text(id) && assigned@ == with_request_id(command@, id),
        assigned@.request_id is Some,
{
    if command.request_id.is_none() {
        let fresh = uuid();
        assign_request_id(command, fresh)
    } else {
        command
    }
}

/// The driver of the connections of one server.
pub struct WebSocketServer<P: CommandProcessor = EchoCommandProcessor> {
    backend: WebSocketBackend<P>,
}

impl WebSocketServer<EchoCommandProcessor> {
    /// A server with an empty registry and the echo handler registered.
    pub fn new() -> (server: WebSocketServer<EchoCommandProcessor>)
        ensures
            server.shared().dispatcher().wf(),
            server.shared().dispatcher().handlers() == seq![EchoCommandProcessor {  }],
    {
        WebSocketServer { backend: WebSocketBackend::new() }
    }
}

impl<P: CommandProcessor> WebSocketServer<P> {
    /// The state that the server's connections share.
    pub closed spec fn shared(&self) -> WebSocketBackend<P> {
        self.backend
    }

    /// A server over the given backend.
    pub fn with_backend(backend: WebSocketBackend<P>) -> (server: WebSocketServer<P>)
        ensures
            server.shared() == backend,
    {
        WebSocketServer { backend }
    }

    /// The state that the server's connections share.
    pub fn backend(&self) -> (backend: &WebSocketBackend<P>)
        ensures
            *backend == self.shared(),
    {
        &self.backend
    }

    /// Registers a session for a connection that has just been accepted.
    pub fn open_session(&self, sink: Sender<Frame>) -> (session: Arc<Session>)
        ensures
            is_random_uuid_text(session.id_text()),
            session.outbound() == sink,
    {
        self.backend.create_session(sink)
    }

    /// Carries out the plan for one frame: sends the reply, dispatches the
    /// command with a request identifier, or echoes the close frame and
    /// removes the session. Failed sends are ignored. The loop stops after a
    /// close plan and after no other.
    pub fn carry_out(&self, session: &Arc<Session>, plan: Plan) -> (flow: Flow)
        ensures
            flow == Flow::Stop <==> plan is Close,
    {
        match plan {
            Plan::Reply(reply) => {
                let _ = session.send_message(reply);
                Flow::Continue
            },
            Plan::Dispatch(command) => {
                let command = ensure_request_id(command);
                let _ = self.backend.get_command_dispatcher().dispatch(
                    share_session(session),
                    &command,
                );
                Flow::Continue
            },
            Plan::Reject(response) => {
                let _ = session.send_response(response);
                Flow::Continue
            },
            Plan::Close(echo) => {
                let _ = session.send_message(echo);
                self.backend.drop_session(session.id());
                Flow::Stop
            },
        }
    }

    /// Handles one inbound frame of `session`: records the activity, plans
    /// the answer and carries it out. The receive loop stops after a close
    /// frame and after no other.
    pub fn handle_frame(&self, session: &Arc<Session>, frame: Frame) -> (flow: Flow)
        ensures
            flow == Flow::Stop <==> frame@ is Close,
    {
        if counts_as_activity(&frame) {
            session.update_active_time();
        }
        let plan = plan_frame(frame);
        self.carry_out(session, plan)
    }

    /// Releases a connection whose loops have ended: removes its session
    /// from the registry.
    pub fn close_connection(&self, session: &Arc<Session>) {
        self.backend.drop_session(session.id());
    }
}

} // verus!
