//! Failures that the service reports to its callers.

use vstd::prelude::*;
use vstd::string::*;

verus! {

/// Which kind of handle an identifier was meant to name.
#[derive(Debug, Clone, Copy, PartialEq, Eq, Structural)]
pub enum HandleKind {
    Session,
    Script,
}

/// Why the request/reply bridge could not produce the actor's reply.
#[derive(Debug, Clone, Copy, PartialEq, Eq, Structural)]
pub enum WorkerFault {
    /// The job could not be queued: the actor is gone.
    Closed,
    /// Waiting for the reply was interrupted.
    WaitFailed,
    /// The actor dropped the reply channel without answering.
    NoReply,
}

/// A failure of one operation.
#[derive(Debug, PartialEq, Eq)]
pub enum ServiceError {
    /// The argument called `label` holds a NUL character.
    InputValidation { label: String },
    /// The identifier names no registered session or script.
    UnknownHandle(HandleKind),
    /// The device class cannot be enumerated.
    UnsupportedDevice,
    /// The owning session is no longer attached.
    SessionDetached,
    /// The embedded agent bundle was never built.
    AssetMissing,
    /// The embedded agent bundle holds only white space.
    AssetEmpty,
    /// The embedded agent bundle is not text.
    AssetUnreadable { detail: String },
    /// The toolkit refused a call; its message is kept as it came.
    DeviceError { message: String },
    /// The message could not be written as JSON.
    Encoding { message: String },
    /// Every identifier of a counter has been handed out.
    IdsExhausted,
    /// The actor did not answer.
    WorkerUnavailable(WorkerFault),
}

/// Mathematical value of a [`ServiceError`].
pub enum ServiceErrorView {
    InputValidation { label: Seq<char> },
    UnknownHandle(HandleKind),
    UnsupportedDevice,
    SessionDetached,
    AssetMissing,
    AssetEmpty,
    AssetUnreadable { detail: Seq<char> },
    DeviceError { message: Seq<char> },
    Encoding { message: Seq<char> },
    IdsExhausted,
    WorkerUnavailable(WorkerFault),
}

impl View for ServiceError {
    type V = ServiceErrorView;

    open spec fn view(&self) -> ServiceErrorView {
        match *self {
            ServiceError::InputValidation { label } => ServiceErrorView::InputValidation {
                label: label@,
            },
            ServiceError::UnknownHandle(kind) => ServiceErrorView::UnknownHandle(kind),
            ServiceError::UnsupportedDevice => ServiceErrorView::UnsupportedDevice,
            ServiceError::SessionDetached => ServiceErrorView::SessionDetached,
            ServiceError::AssetMissing => ServiceErrorView::AssetMissing,
            ServiceError::AssetEmpty => ServiceErrorView::AssetEmpty,
            ServiceError::AssetUnreadable { detail } => ServiceErrorView::AssetUnreadable {
                detail: detail@,
            },
            ServiceError::DeviceError { message } => ServiceErrorView::DeviceError {
                message: message@,
            },
            ServiceError::Encoding { message } => ServiceErrorView::Encoding { message: message@ },
            ServiceError::IdsExhausted => ServiceErrorView::IdsExhausted,
            ServiceError::WorkerUnavailable(fault) => ServiceErrorView::WorkerUnavailable(fault),
        }
    }
}

impl DeepView for ServiceError {
    type V = ServiceErrorView;

    open spec fn deep_view(&self) -> ServiceErrorView {
        self@
    }
}

/// A result with its failure turned into its mathematical value.
pub open spec fn failure_view<T>(outcome: Result<T, ServiceError>) -> Result<T, ServiceErrorView> {
    match outcome {
        Ok(value) => Ok(value),
        Err(error) => Err(error@),
    }
}

impl ServiceErrorView {
    /// The sentence shown to the caller.
    pub open spec fn text(self) -> Seq<char> {
        match self {
            ServiceErrorView::InputValidation { label } => label
                + " contains a NUL (\\0) byte, which frida-rust APIs do not support"@,
            ServiceErrorView::UnknownHandle(HandleKind::Session) => "Unknown session_id"@,
            ServiceErrorView::UnknownHandle(HandleKind::Script) => "Unknown script_id"@,
            ServiceErrorView::UnsupportedDevice => "Device 'socket' is not supported"@,
            ServiceErrorView::SessionDetached => "Session is detached"@,
            ServiceErrorView::AssetMissing =>
                "Default agent bundle is missing. Build it first: `bun run compile`"@,
            ServiceErrorView::AssetEmpty =>
                "Embedded agent script (src-frida/dist/index.js) is empty"@,
            ServiceErrorView::AssetUnreadable { detail } =>
                "Embedded agent script (src-frida/dist/index.js) is not valid UTF-8: "@ + detail,
            ServiceErrorView::DeviceError { message } => message,
            ServiceErrorView::Encoding { message } => message,
            ServiceErrorView::IdsExhausted => "Identifier counter is exhausted"@,
            ServiceErrorView::WorkerUnavailable(WorkerFault::Closed) =>
                "Frida worker thread closed"@,
            ServiceErrorView::WorkerUnavailable(WorkerFault::WaitFailed) =>
                "Failed to wait for Frida worker response"@,
            ServiceErrorView::WorkerUnavailable(WorkerFault::NoReply) =>
                "Frida worker did not respond"@,
        }
    }
}

impl Clone for ServiceError {
    fn clone(&self) -> (copy: Self)
        ensures
            copy@ == self@,
    {
        match self {
            ServiceError::InputValidation { label } => ServiceError::InputValidation {
                label: label.clone(),
            },
            ServiceError::UnknownHandle(kind) => ServiceError::UnknownHandle(*kind),
            ServiceError::UnsupportedDevice => ServiceError::UnsupportedDevice,
            ServiceError::SessionDetached => ServiceError::SessionDetached,
            ServiceError::AssetMissing => ServiceError::AssetMissing,
            ServiceError::AssetEmpty => ServiceError::AssetEmpty,
            ServiceError::AssetUnreadable { detail } => ServiceError::AssetUnreadable {
                detail: detail.clone(),
            },
            ServiceError::DeviceError { message } => ServiceError::DeviceError {
                message: message.clone(),
            },
            ServiceError::Encoding { message } => ServiceError::Encoding {
                message: message.clone(),
            },
            ServiceError::IdsExhausted => ServiceError::IdsExhausted,
            ServiceError::WorkerUnavailable(fault) => ServiceError::WorkerUnavailable(*fault),
        }
    }
}

impl ServiceError {
    /// Renders the failure as the sentence shown to the caller.
    pub fn message(&self) -> (text: String)
        ensures
            text@ == self@.text(),
    {
        match self {
            ServiceError::InputValidation { label } => {
                let head = label.clone();
                head.concat(" contains a NUL (\\0) byte, which frida-rust APIs do not support")
            },
            ServiceError::UnknownHandle(HandleKind::Session) => String::from_str(
                "Unknown session_id",
            ),
            ServiceError::UnknownHandle(HandleKind::Script) => String::from_str(
                "Unknown script_id",
            ),
            ServiceError::UnsupportedDevice => String::from_str("Device 'socket' is not supported"),
            ServiceError::SessionDetached => String::from_str("Session is detached"),
            ServiceError::AssetMissing => String::from_str(
                "Default agent bundle is missing. Build it first: `bun run compile`",
            ),
            ServiceError::AssetEmpty => String::from_str(
                "Embedded agent script (src-frida/dist/index.js) is empty",
            ),
            ServiceError::AssetUnreadable { detail } => {
                let head = String::from_str(
                    "Embedded agent script (src-frida/dist/index.js) is not valid UTF-8: ",
                );
                head.concat(detail.as_str())
            },
            ServiceError::DeviceError { message } => message.clone(),
            ServiceError::Encoding { message } => message.clone(),
            ServiceError::IdsExhausted => String::from_str("Identifier counter is exhausted"),
            ServiceError::WorkerUnavailable(WorkerFault::Closed) => String::from_str(
                "Frida worker thread closed",
            ),
            ServiceError::WorkerUnavailable(WorkerFault::WaitFailed) => String::from_str(
                "Failed to wait for Frida worker response",
            ),
            ServiceError::WorkerUnavailable(WorkerFault::NoReply) => String::from_str(
                "Frida worker did not respond",
            ),
        }
    }
}

} // verus!
