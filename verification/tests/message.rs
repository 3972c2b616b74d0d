use carf::message::{
    channel, level_text, translate_message, LogLevel, MessagePayload, ScriptMessage,
    ScriptMessageEvent, TaggedMessage,
};
use serde_json::Value;

#[test]
fn a_send_message_keeps_its_envelope() {
    let event = translate_message(
        3,
        9,
        ScriptMessage::Send {
            kind: "frida:rpc".to_string(),
            id: 17,
            result: "ok".to_string(),
            returns: Value::Bool(true),
        },
        Some(vec![1, 2]),
    );
    assert_eq!(
        event,
        ScriptMessageEvent {
            session_id: 3,
            script_id: 9,
            message: TaggedMessage {
                kind: "send".to_string(),
                payload: MessagePayload::Send {
                    kind: "frida:rpc".to_string(),
                    id: 17,
                    result: "ok".to_string(),
                    returns: Value::Bool(true),
                },
            },
            data: Some(vec![1, 2]),
        }
    );
}

#[test]
fn a_log_message_names_its_level() {
    let event = translate_message(
        1,
        1,
        ScriptMessage::Log { level: LogLevel::Warning, payload: "careful".to_string() },
        None,
    );
    assert_eq!(event.session_id, 1);
    assert_eq!(event.script_id, 1);
    assert_eq!(event.data, None);
    assert_eq!(event.message.kind, "log");
    assert_eq!(
        event.message.payload,
        MessagePayload::Log { level: "Warning".to_string(), payload: "careful".to_string() }
    );
}

#[test]
fn an_error_message_keeps_its_location() {
    let event = translate_message(
        2,
        5,
        ScriptMessage::Error {
            description: "ReferenceError: x is not defined".to_string(),
            stack: "at <anonymous>".to_string(),
            file_name: "/agent.js".to_string(),
            line_number: 12,
            column_number: 3,
        },
        None,
    );
    assert_eq!(event.message.kind, "error");
    assert_eq!(
        event.message.payload,
        MessagePayload::Error {
            description: "ReferenceError: x is not defined".to_string(),
            stack: "at <anonymous>".to_string(),
            file_name: "/agent.js".to_string(),
            line_number: 12,
            column_number: 3,
        }
    );
}

#[test]
fn any_other_message_passes_as_it_came() {
    let value = Value::Array(vec![Value::Null, Value::String("x".to_string())]);
    let event = translate_message(7, 8, ScriptMessage::Other(value.clone()), Some(vec![]));
    assert_eq!(event.session_id, 7);
    assert_eq!(event.script_id, 8);
    assert_eq!(event.message.kind, "other");
    assert_eq!(event.message.payload, MessagePayload::Other(value));
    assert_eq!(event.data, Some(vec![]));
}

#[test]
fn level_text_names_every_level() {
    assert_eq!(level_text(LogLevel::Info), "Info");
    assert_eq!(level_text(LogLevel::Debug), "Debug");
    assert_eq!(level_text(LogLevel::Warning), "Warning");
    assert_eq!(level_text(LogLevel::Error), "Error");
}

#[test]
fn script_messages_have_their_own_stream() {
    assert_eq!(channel(), "frida_script_message");
}
