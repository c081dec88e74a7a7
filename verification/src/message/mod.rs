//! Command and response envelopes and their JSON wire form.

pub mod json;

use crate::message::json::{
    clone_value, json_string, json_text, json_tree, parse_json, parsed_json, render_value,
    string_value, value_is_null, value_member, value_text, JsonTree,
};
use serde_json::Value;
use vstd::prelude::*;

verus! {

/// The view of an optional string.
pub open spec fn optional_view(text: Option<String>) -> Option<Seq<char>> {
    match text {
        Some(s) => Some(s@),
        None => None,
    }
}

/// An inbound request: `{"op", "channel"?, "args"?, "requestId"?}`.
#[derive(Debug)]
pub struct Command {
    pub op: String,
    pub channel: Option<String>,
    pub args: Option<Value>,
    pub request_id: Option<String>,
}

/// A command as a mathematical value.
pub struct CommandView {
    pub op: Seq<char>,
    pub channel: Option<Seq<char>>,
    pub args: Option<Value>,
    pub request_id: Option<Seq<char>>,
}

impl View for Command {
    type V = CommandView;

    open spec fn view(&self) -> CommandView {
        CommandView {
            op: self.op@,
            channel: optional_view(self.channel),
            args: self.args,
            request_id: optional_view(self.request_id),
        }
    }
}

/// What an optional text member holds: `Some(None)` where the member is
/// absent or `null`, `Some(Some(text))` where it is a string, and `None`
/// where it is anything else.
pub open spec fn optional_text(fields: Map<Seq<char>, JsonTree>, key: Seq<char>) -> Option<
    Option<Seq<char>>,
> {
    if !fields.contains_key(key) || fields[key] is Null {
        Some(None)
    } else if fields[key] is Text {
        Some(Some(fields[key]->text))
    } else {
        None
    }
}

/// Whether a document has the shape of a command envelope: an object whose
/// `op` is a non-empty string and whose `channel` and `requestId`, where
/// present and not `null`, are strings.
pub open spec fn is_envelope(tree: JsonTree) -> bool {
    &&& tree matches JsonTree::Object { fields }
    &&& fields.contains_key("op"@)
    &&& fields["op"@] matches JsonTree::Text { text }
    &&& text.len() > 0
    &&& optional_text(fields, "channel"@) is Some
    &&& optional_text(fields, "requestId"@) is Some
}

/// Whether `command` is what the envelope `tree` says: the texts of `op`,
/// `channel` and `requestId`, and under `args` the member of that name unless
/// it is absent or `null`.
pub open spec fn decodes_to(tree: JsonTree, command: CommandView) -> bool {
    &&& tree matches JsonTree::Object { fields }
    &&& fields["op"@] == (JsonTree::Text { text: command.op })
    &&& optional_text(fields, "channel"@) == Some(command.channel)
    &&& optional_text(fields, "requestId"@) == Some(command.request_id)
    &&& match command.args {
        Some(payload) => fields.contains_key("args"@) && !(fields["args"@] is Null) && json_tree(
            payload,
        ) == fields["args"@],
        None => !fields.contains_key("args"@) || fields["args"@] is Null,
    }
}

/// Reads an optional text member of an object: `Ok(None)` where it is absent
/// or `null`, `Ok(Some(text))` where it is a string, `Err` otherwise.
fn read_optional_text(value: &Value, key: &str) -> (read: Result<Option<String>, ()>)
    requires
        json_tree(*value) is Object,
    ensures
        match read {
            Ok(text) => optional_text(json_tree(*value)->fields, key@) == Some(optional_view(text)),
            Err(_) => optional_text(json_tree(*value)->fields, key@) is None,
        },
{
    match value_member(value, key) {
        None => Ok(None),
        Some(member) => {
            if value_is_null(member) {
                Ok(None)
            } else {
                match value_text(member) {
                    Some(text) => Ok(Some(text.to_owned())),
                    None => Err(()),
                }
            }
        },
    }
}

impl Command {
    /// Reads a command out of a parsed document. It succeeds exactly on
    /// envelopes, and the command then holds what the envelope says.
    pub fn from_value(value: &Value) -> (decoded: Option<Command>)
        ensures
            decoded is Some <==> is_envelope(json_tree(*value)),
            decoded matches Some(command) ==> decodes_to(json_tree(*value), command@),
    {
        let op = match value_member(value, "op") {
            Some(member) => match value_text(member) {
                Some(text) => text,
                None => { return None; },
            },
            None => { return None; },
        };
        if op.is_empty() {
            return None;
        }
        let channel = match read_optional_text(value, "channel") {
            Ok(text) => text,
            Err(_) => { return None; },
        };
        let request_id = match read_optional_text(value, "requestId") {
            Ok(text) => text,
            Err(_) => { return None; },
        };
        let args = match value_member(value, "args") {
            Some(member) => if value_is_null(member) {
                None
            } else {
                Some(clone_value(member))
            },
            None => None,
        };
        Some(Command { op: op.to_owned(), channel, args, request_id })
    }

    /// Decodes a command from JSON text. It succeeds exactly where the text
    /// parses to an envelope.
    pub fn decode(text: &str) -> (decoded: Option<Command>)
        ensures
            decoded is Some <==> (parsed_json(text@) matches Some(value) && is_envelope(
                json_tree(value),
            )),
            decoded matches Some(command) ==> decodes_to(
                json_tree(parsed_json(text@)->Some_0),
                command@,
            ),
    {
        match parse_json(text) {
            Ok(value) => Command::from_value(&value),
            Err(_) => None,
        }
    }
}

/// A response could not be written as JSON text.
#[derive(Debug, Clone, Copy, PartialEq, Eq)]
pub struct SerializationError;

/// An outbound response:
/// `{"code", "message", "op"?, "channel"?, "data"?, "requestId"?}`.
#[derive(Debug)]
pub struct SocketResponse {
    code: String,
    message: String,
    op: Option<String>,
    channel: Option<String>,
    data: Option<Value>,
    pub request_id: Option<String>,
}

/// A response as a mathematical value.
pub struct SocketResponseView {
    pub code: Seq<char>,
    pub message: Seq<char>,
    pub op: Option<Seq<char>>,
    pub channel: Option<Seq<char>>,
    pub data: Option<Value>,
    pub request_id: Option<Seq<char>>,
}

impl SocketResponseView {
    /// The plain success response: code `200`, nothing else set.
    pub open spec fn success() -> SocketResponseView {
        SocketResponseView {
            code: "200"@,
            message: "success"@,
            op: None,
            channel: None,
            data: None,
            request_id: None,
        }
    }

    /// The success response that answers `command`: it carries the
    /// command's `op`, `channel` and `requestId`.
    pub open spec fn answering(command: CommandView) -> SocketResponseView {
        SocketResponseView {
            op: Some(command.op),
            channel: command.channel,
            request_id: command.request_id,
            ..SocketResponseView::success()
        }
    }

    /// This response with another code and message.
    pub open spec fn with_status(self, code: Seq<char>, message: Seq<char>) -> SocketResponseView {
        SocketResponseView { code, message, ..self }
    }

    /// This response with a payload.
    pub open spec fn with_data(self, data: Value) -> SocketResponseView {
        SocketResponseView { data: Some(data), ..self }
    }
}

impl View for SocketResponse {
    type V = SocketResponseView;

    closed spec fn view(&self) -> SocketResponseView {
        SocketResponseView {
            code: self.code@,
            message: self.message@,
            op: optional_view(self.op),
            channel: optional_view(self.channel),
            data: self.data,
            request_id: optional_view(self.request_id),
        }
    }
}

impl Default for SocketResponse {
    /// The plain success response.
    fn default() -> (response: SocketResponse)
        ensures
            response@ == SocketResponseView::success(),
    {
        SocketResponse {
            op: None,
            data: None,
            channel: None,
            code: "200".to_owned(),
            message: "success".to_owned(),
            request_id: None,
        }
    }
}

impl vstd::std_specs::convert::FromSpecImpl<&Command> for SocketResponse {
    open spec fn obeys_from_spec() -> bool {
        false
    }

    open spec fn from_spec(command: &Command) -> SocketResponse {
        arbitrary()
    }
}

impl From<&Command> for SocketResponse {
    /// The success response that answers `command`.
    fn from(command: &Command) -> (response: SocketResponse)
        ensures
            response@ == SocketResponseView::answering(command@),
    {
        let mut response = SocketResponse::default();
        response.op = Some(command.op.clone());
        response.channel = command.channel.clone();
        response.request_id = command.request_id.clone();
        response
    }
}

impl SocketResponse {
    /// Attaches a payload.
    pub fn set_data(self, data: Value) -> (response: SocketResponse)
        ensures
            response@ == self@.with_data(data),
    {
        let mut response = self;
        response.data = Some(data);
        response
    }

    /// Switches to the server-error preset.
    pub fn with_server_error(self) -> (response: SocketResponse)
        ensures
            response@ == self@.with_status("500"@, "server error"@),
    {
        let mut response = self;
        response.code = "500".to_owned();
        response.message = "server error".to_owned();
        response
    }

    /// Switches back to the success preset.
    pub fn with_success(self) -> (response: SocketResponse)
        ensures
            response@ == self@.with_status("200"@, "success"@),
    {
        let mut response = self;
        response.code = "200".to_owned();
        response.message = "success".to_owned();
        response
    }

    /// Switches to the bad-command preset.
    pub fn with_bad_command(self) -> (response: SocketResponse)
        ensures
            response@ == self@.with_status("4001"@, "bad command"@),
    {
        let mut response = self;
        response.code = "4001".to_owned();
        response.message = "bad command".to_owned();
        response
    }

    /// Switches to the invalid-params preset.
    pub fn with_invalid_params(self) -> (response: SocketResponse)
        ensures
            response@ == self@.with_status("4006"@, "invalid params"@),
    {
        let mut response = self;
        response.code = "4006".to_owned();
        response.message = "invalid params".to_owned();
        response
    }
}

/// A text as a JSON string literal, quotes and escapes included, or `None`
/// where it cannot be written.
pub open spec fn quoted(text: Seq<char>) -> Option<Seq<char>> {
    json_text(json_string(text))
}

/// An optional text as a JSON string literal: `Some(None)` where there is no
/// text, `None` where the text cannot be written.
pub open spec fn quoted_optional(text: Option<Seq<char>>) -> Option<Option<Seq<char>>> {
    match text {
        None => Some(None),
        Some(s) => match quoted(s) {
            Some(literal) => Some(Some(literal)),
            None => None,
        },
    }
}

/// An optional payload as JSON text: `Some(None)` where there is no payload,
/// `None` where the payload cannot be written.
pub open spec fn rendered_optional(data: Option<Value>) -> Option<Option<Seq<char>>> {
    match data {
        None => Some(None),
        Some(value) => match json_text(value) {
            Some(text) => Some(Some(text)),
            None => None,
        },
    }
}

/// One optional member of an envelope on the wire: a comma, the quoted key,
/// a colon and the value's JSON text, or nothing where the value is absent.
pub open spec fn member_text(key: Seq<char>, value: Option<Seq<char>>) -> Seq<char> {
    match value {
        Some(json) => ",\""@ + key + "\":"@ + json,
        None => Seq::empty(),
    }
}

/// A response envelope on the wire, given the JSON text of each part: `code`
/// and `message` first, then `op`, `channel`, `data` and `requestId`, each
/// left out where absent.
pub open spec fn envelope_text(
    code: Seq<char>,
    message: Seq<char>,
    op: Option<Seq<char>>,
    channel: Option<Seq<char>>,
    data: Option<Seq<char>>,
    request_id: Option<Seq<char>>,
) -> Seq<char> {
    "{\"code\":"@ + code + ",\"message\":"@ + message + member_text("op"@, op) + member_text(
        "channel"@,
        channel,
    ) + member_text("data"@, data) + member_text("requestId"@, request_id) + "}"@
}

/// The wire text of a response, or `None` where a part cannot be written.
pub open spec fn wire_text(response: SocketResponseView) -> Option<Seq<char>> {
    if quoted(response.code) is Some && quoted(response.message) is Some && quoted_optional(
        response.op,
    ) is Some && quoted_optional(response.channel) is Some && rendered_optional(response.data) is Some
        && quoted_optional(response.request_id) is Some {
        Some(
            envelope_text(
                quoted(response.code)->0,
                quoted(response.message)->0,
                quoted_optional(response.op)->0,
                quoted_optional(response.channel)->0,
                rendered_optional(response.data)->0,
                quoted_optional(response.request_id)->0,
            ),
        )
    } else {
        None
    }
}

/// Writes a text as a JSON string literal.
pub fn quote(text: &str) -> (literal: Result<String, SerializationError>)
    ensures
        match literal {
            Ok(json) => quoted(text@) == Some(json@),
            Err(_) => quoted(text@) is None,
        },
{
    let value = string_value(text);
    match render_value(&value) {
        Ok(json) => Ok(json),
        Err(_) => Err(SerializationError),
    }
}

/// Writes an optional text as a JSON string literal.
fn quote_optional(text: &Option<String>) -> (literal: Result<Option<String>, SerializationError>)
    ensures
        match literal {
            Ok(json) => quoted_optional(optional_view(*text)) == Some(optional_view(json)),
            Err(_) => quoted_optional(optional_view(*text)) is None,
        },
{
    match text {
        None => Ok(None),
        Some(s) => match quote(s.as_str()) {
            Ok(json) => Ok(Some(json)),
            Err(error) => Err(error),
        },
    }
}

/// Writes an optional payload as JSON text.
fn render_optional(data: &Option<Value>) -> (rendered: Result<Option<String>, SerializationError>)
    ensures
        match rendered {
            Ok(json) => rendered_optional(*data) == Some(optional_view(json)),
            Err(_) => rendered_optional(*data) is None,
        },
{
    match data {
        None => Ok(None),
        Some(value) => match render_value(value) {
            Ok(json) => Ok(Some(json)),
            Err(_) => Err(SerializationError),
        },
    }
}

/// Appends one optional member to an envelope under construction.
fn append_member(out: &mut String, key: &str, value: &Option<String>)
    ensures
        final(out)@ == old(out)@ + member_text(key@, optional_view(*value)),
{
    match value {
        Some(json) => {
            let mut member = ",\"".to_owned();
            member.append(key);
            member.append("\":");
            member.append(json.as_str());
            out.append(member.as_str());
        },
        None => {
            assert(old(out)@ + Seq::<char>::empty() =~= old(out)@);
        },
    }
}

/// Lays out a response envelope from the JSON text of each of its parts.
pub fn assemble_envelope(
    code: &str,
    message: &str,
    op: &Option<String>,
    channel: &Option<String>,
    data: &Option<String>,
    request_id: &Option<String>,
) -> (text: String)
    ensures
        text@ == envelope_text(
            code@,
            message@,
            optional_view(*op),
            optional_view(*channel),
            optional_view(*data),
            optional_view(*request_id),
        ),
{
    let mut out = "{\"code\":".to_owned();
    out.append(code);
    out.append(",\"message\":");
    out.append(message);
    append_member(&mut out, "op", op);
    append_member(&mut out, "channel", channel);
    append_member(&mut out, "data", data);
    append_member(&mut out, "requestId", request_id);
    out.append("}");
    out
}

impl SocketResponse {
    /// Writes the response as compact JSON text. Absent members are left
    /// out, never written as `null`.
    pub fn as_json(&self) -> (written: Result<String, SerializationError>)
        ensures
            match written {
                Ok(text) => wire_text(self@) == Some(text@),
                Err(_) => wire_text(self@) is None,
            },
    {
        let code = match quote(self.code.as_str()) {
            Ok(json) => json,
            Err(error) => { return Err(error); },
        };
        let message = match quote(self.message.as_str()) {
            Ok(json) => json,
            Err(error) => { return Err(error); },
        };
        let op = match quote_optional(&self.op) {
            Ok(json) => json,
            Err(error) => { return Err(error); },
        };
        let channel = match quote_optional(&self.channel) {
            Ok(json) => json,
            Err(error) => { return Err(error); },
        };
        let data = match render_optional(&self.data) {
            Ok(json) => json,
            Err(error) => { return Err(error); },
        };
        let request_id = match quote_optional(&self.request_id) {
            Ok(json) => json,
            Err(error) => { return Err(error); },
        };
        Ok(assemble_envelope(code.as_str(), message.as_str(), &op, &channel, &data, &request_id))
    }
}

} // verus!
