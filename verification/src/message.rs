//! Messages of an injected script, normalised for the subscriber.
//!
//! The toolkit delivers four shapes of message. Each becomes one event that
//! names the session and the script, tags the shape, and carries the
//! binary payload along. Nothing is filtered and nothing is held back.

use vstd::prelude::*;
use vstd::string::*;

verus! {

/// The severity of a script's log line.
#[derive(Debug, Clone, Copy, PartialEq, Eq, Structural)]
pub enum LogLevel {
    Info,
    Debug,
    Warning,
    Error,
}

/// A message as the toolkit hands it to the script's handler.
#[derive(Debug, PartialEq)]
pub enum ScriptMessage {
    /// The script sent a typed envelope.
    Send { kind: String, id: usize, result: String, returns: serde_json::Value },
    /// The script logged a line.
    Log { level: LogLevel, payload: String },
    /// The script's runtime raised an error.
    Error {
        description: String,
        stack: String,
        file_name: String,
        line_number: usize,
        column_number: usize,
    },
    /// Anything else, as it came.
    Other(serde_json::Value),
}

/// The content of a forwarded message.
#[derive(Debug, PartialEq)]
pub enum MessagePayload {
    Send { kind: String, id: usize, result: String, returns: serde_json::Value },
    Log { level: String, payload: String },
    Error {
        description: String,
        stack: String,
        file_name: String,
        line_number: usize,
        column_number: usize,
    },
    Other(serde_json::Value),
}

/// A forwarded message: the tag of its shape, and its content.
#[derive(Debug, PartialEq)]
pub struct TaggedMessage {
    pub kind: String,
    pub payload: MessagePayload,
}

/// The event that the subscriber receives for one message of a script.
#[derive(Debug, PartialEq)]
pub struct ScriptMessageEvent {
    pub session_id: u64,
    pub script_id: u64,
    pub message: TaggedMessage,
    pub data: Option<Vec<u8>>,
}

/// The name of the stream that carries script messages.
pub open spec fn channel_text() -> Seq<char> {
    "frida_script_message"@
}

/// Names the stream that carries script messages.
pub fn channel() -> (name: &'static str)
    ensures
        name@ == channel_text(),
{
    "frida_script_message"
}

/// The name of a severity, as the subscriber reads it.
pub open spec fn level_name(level: LogLevel) -> Seq<char> {
    match level {
        LogLevel::Info => "Info"@,
        LogLevel::Debug => "Debug"@,
        LogLevel::Warning => "Warning"@,
        LogLevel::Error => "Error"@,
    }
}

/// The tag of a message's shape.
pub open spec fn shape_tag(message: ScriptMessage) -> Seq<char> {
    match message {
        ScriptMessage::Send { .. } => "send"@,
        ScriptMessage::Log { .. } => "log"@,
        ScriptMessage::Error { .. } => "error"@,
        ScriptMessage::Other(_) => "other"@,
    }
}

/// Whether `payload` carries exactly what `message` holds.
pub open spec fn carries(payload: MessagePayload, message: ScriptMessage) -> bool {
    match message {
        ScriptMessage::Send { kind, id, result, returns } => payload
            == (MessagePayload::Send { kind, id, result, returns }),
        ScriptMessage::Log { level, payload: line } => {
            &&& payload matches MessagePayload::Log { level: name, payload: shown }
            &&& name@ == level_name(level)
            &&& shown == line
        },
        ScriptMessage::Error { description, stack, file_name, line_number, column_number } =>
            payload == (MessagePayload::Error {
                description,
                stack,
                file_name,
                line_number,
                column_number,
            }),
        ScriptMessage::Other(value) => payload == MessagePayload::Other(value),
    }
}

/// Writes the name of a severity.
pub fn level_text(level: LogLevel) -> (name: String)
    ensures
        name@ == level_name(level),
{
    match level {
        LogLevel::Info => String::from_str("Info"),
        LogLevel::Debug => String::from_str("Debug"),
        LogLevel::Warning => String::from_str("Warning"),
        LogLevel::Error => String::from_str("Error"),
    }
}

/// Makes the event for one message of the script `script_id` of the
/// session `session_id`, with the bytes that came with it.
pub fn translate_message(
    session_id: u64,
    script_id: u64,
    message: ScriptMessage,
    data: Option<Vec<u8>>,
) -> (event: ScriptMessageEvent)
    ensures
        event.session_id == session_id,
        event.script_id == script_id,
        event.data == data,
        event.message.kind@ == shape_tag(message),
        carries(event.message.payload, message),
{
    let tagged = match message {
        ScriptMessage::Send { kind, id, result, returns } => TaggedMessage {
            kind: String::from_str("send"),
            payload: MessagePayload::Send { kind, id, result, returns },
        },
        ScriptMessage::Log { level, payload } => TaggedMessage {
            kind: String::from_str("log"),
            payload: MessagePayload::Log { level: level_text(level), payload },
        },
        ScriptMessage::Error { description, stack, file_name, line_number, column_number } =>
            TaggedMessage {
                kind: String::from_str("error"),
                payload: MessagePayload::Error {
                    description,
                    stack,
                    file_name,
                    line_number,
                    column_number,
                },
            },
        ScriptMessage::Other(value) => TaggedMessage {
            kind: String::from_str("other"),
            payload: MessagePayload::Other(value),
        },
    };
    ScriptMessageEvent { session_id, script_id, message: tagged, data }
}

} // verus!
