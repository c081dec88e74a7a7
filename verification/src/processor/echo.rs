//! The echo handler: answers a command with its own arguments.

use crate::message::{Command, CommandView, SocketResponse, SocketResponseView};
use crate::message::json::clone_value;
use crate::processor::CommandProcessor;
use crate::socket::session::Session;
use crate::utils::text_util::same_text;
use std::sync::Arc;
use vstd::prelude::*;

verus! {

/// The response that the echo handler gives to `command`: the success
/// response that answers it, with the command's arguments, if any, as its
/// payload.
pub open spec fn echo_response(command: CommandView) -> SocketResponseView {
    match command.args {
        Some(arguments) => SocketResponseView::answering(command).with_data(arguments),
        None => SocketResponseView::answering(command),
    }
}

/// The echo response is a success that carries the command's operation,
/// channel and request identifier, and the command's arguments as payload.
pub proof fn lemma_echo_response_mirrors_command(command: CommandView)
    ensures
        echo_response(command).code == "200"@,
        echo_response(command).message == "success"@,
        echo_response(command).op == Some(command.op),
        echo_response(command).channel == command.channel,
        echo_response(command).data == command.args,
        echo_response(command).request_id == command.request_id,
{
}

/// Handles the operation `echo`.
pub struct EchoCommandProcessor {}

impl EchoCommandProcessor {
    pub fn new() -> EchoCommandProcessor {
        EchoCommandProcessor {  }
    }

    /// Builds the response to `command`.
    pub fn respond(command: &Command) -> (response: SocketResponse)
        ensures
            response@ == echo_response(command@),
    {
        let response = SocketResponse::from(command);
        match &command.args {
            Some(arguments) => response.set_data(clone_value(arguments)),
            None => response,
        }
    }
}

impl CommandProcessor for EchoCommandProcessor {
    open spec fn described() -> bool {
        true
    }

    open spec fn accepts(&self, command: CommandView) -> bool {
        command.op == "echo"@
    }

    open spec fn name(&self) -> Seq<char> {
        "echo"@
    }

    /// Sends the echo response to the session. A failed send is ignored.
    fn process(&self, session: Arc<Session>, command: &Command) {
        let _ = session.send_response(EchoCommandProcessor::respond(command));
    }

    fn matches(&self, command: &Command) -> (accepted: bool) {
        same_text(command.op.as_str(), "echo")
    }

    fn get_name(&self) -> (name: &str) {
        "echo"
    }
}

} // verus!
