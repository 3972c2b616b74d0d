//! What the actor and its host say to each other.
//!
//! The actor never calls the toolkit. It returns a [`Step`]: side effects for
//! the host to perform in order, then either one [`Query`] whose [`Answer`]
//! the host hands back, or the [`Reply`] that ends the operation.

use crate::error::{HandleKind, ServiceError, ServiceErrorView};
use crate::types::{
    DeviceInfo, DeviceInfoView, ProcessInfo, ProcessInfoView, ScriptInfo, SessionInfo,
};
use vstd::prelude::*;

verus! {

/// Why a session left the registry.
#[derive(Debug, Clone, Copy, PartialEq, Eq, Structural)]
pub enum DetachReason {
    /// A caller asked for it.
    User,
    /// The toolkit had already let go of the session.
    Disposed,
}

impl DetachReason {
    /// The reason as the subscriber reads it.
    pub open spec fn label_text(self) -> Seq<char> {
        match self {
            DetachReason::User => "user"@,
            DetachReason::Disposed => "disposed"@,
        }
    }

    /// Writes the reason as the subscriber reads it.
    pub fn label(&self) -> (text: &'static str)
        ensures
            text@ == self.label_text(),
    {
        match self {
            DetachReason::User => "user",
            DetachReason::Disposed => "disposed",
        }
    }
}

/// An event pushed to the subscriber.
#[derive(Debug, PartialEq, Eq)]
pub enum Notice {
    SessionAttached { session_id: u64, script_id: u64, device_id: String, pid: u32 },
    SessionDetached { session_id: u64, reason: DetachReason },
}

/// Mathematical value of a [`Notice`].
pub enum NoticeView {
    SessionAttached { session_id: u64, script_id: u64, device_id: Seq<char>, pid: u32 },
    SessionDetached { session_id: u64, reason: DetachReason },
}

impl View for Notice {
    type V = NoticeView;

    open spec fn view(&self) -> NoticeView {
        match *self {
            Notice::SessionAttached { session_id, script_id, device_id, pid } =>
                NoticeView::SessionAttached { session_id, script_id, device_id: device_id@, pid },
            Notice::SessionDetached { session_id, reason } => NoticeView::SessionDetached {
                session_id,
                reason,
            },
        }
    }
}

impl NoticeView {
    /// The name of the stream that carries the event.
    pub open spec fn channel_text(self) -> Seq<char> {
        match self {
            NoticeView::SessionAttached { .. } => "frida_session_attached"@,
            NoticeView::SessionDetached { .. } => "frida_session_detached"@,
        }
    }
}

impl Notice {
    /// Names the stream that carries the event.
    pub fn channel(&self) -> (name: &'static str)
        ensures
            name@ == self@.channel_text(),
    {
        match self {
            Notice::SessionAttached { .. } => "frida_session_attached",
            Notice::SessionDetached { .. } => "frida_session_detached",
        }
    }
}

/// Something the host does for the actor without reporting back.
#[derive(Debug, PartialEq, Eq)]
pub enum Effect {
    /// Give up the handle of a script; its callbacks end here.
    ReleaseScript { script_id: u64 },
    /// Give up the handle of a session, then the device handle it kept alive.
    ReleaseSession { session_id: u64 },
    /// Push an event to the subscriber.
    Emit(Notice),
}

/// Mathematical value of an [`Effect`].
pub enum EffectView {
    ReleaseScript { script_id: u64 },
    ReleaseSession { session_id: u64 },
    Emit(NoticeView),
}

impl View for Effect {
    type V = EffectView;

    open spec fn view(&self) -> EffectView {
        match *self {
            Effect::ReleaseScript { script_id } => EffectView::ReleaseScript { script_id },
            Effect::ReleaseSession { session_id } => EffectView::ReleaseSession { session_id },
            Effect::Emit(notice) => EffectView::Emit(notice@),
        }
    }
}

impl DeepView for Effect {
    type V = EffectView;

    open spec fn deep_view(&self) -> EffectView {
        self@
    }
}

/// A toolkit call whose result the actor waits for.
#[derive(Debug, PartialEq, Eq)]
pub enum Query {
    /// The toolkit's version string.
    Version,
    /// Every device the toolkit knows.
    EnumerateDevices,
    /// Resolve the device, then list its processes.
    EnumerateProcesses { device_id: String },
    /// Resolve the device and attach to `pid`; on success keep the session
    /// and its device under `session_id`.
    Attach { device_id: String, pid: u32, session_id: u64 },
    /// Whether the toolkit reports the session as detached.
    IsDetached { session_id: u64 },
    /// Create a script named `name` from `source` under the session and keep
    /// it under `script_id`.
    CreateScript { session_id: u64, script_id: u64, name: String, source: String },
    /// Route the script's messages to the subscriber, tagged with both ids.
    SubscribeMessages { session_id: u64, script_id: u64 },
    /// Load the created script into the target process.
    LoadScript { script_id: u64 },
    /// Unload the script from the target process.
    UnloadScript { script_id: u64 },
    /// Ask the toolkit to detach the session.
    DetachSession { session_id: u64 },
    /// Forward a JSON message, with optional bytes, to the script.
    Post { script_id: u64, message: String, data: Option<Vec<u8>> },
    /// Resolve the device and spawn `program` suspended.
    Spawn { device_id: String, program: String, argv: Option<Vec<String>> },
    /// Resolve the device and resume `pid`.
    Resume { device_id: String, pid: u32 },
    /// Resolve the device and kill `pid`.
    Kill { device_id: String, pid: u32 },
}

/// Mathematical value of a [`Query`].
pub enum QueryView {
    Version,
    EnumerateDevices,
    EnumerateProcesses { device_id: Seq<char> },
    Attach { device_id: Seq<char>, pid: u32, session_id: u64 },
    IsDetached { session_id: u64 },
    CreateScript { session_id: u64, script_id: u64, name: Seq<char>, source: Seq<char> },
    SubscribeMessages { session_id: u64, script_id: u64 },
    LoadScript { script_id: u64 },
    UnloadScript { script_id: u64 },
    DetachSession { session_id: u64 },
    Post { script_id: u64, message: Seq<char>, data: Option<Seq<u8>> },
    Spawn { device_id: Seq<char>, program: Seq<char>, argv: Option<Seq<Seq<char>>> },
    Resume { device_id: Seq<char>, pid: u32 },
    Kill { device_id: Seq<char>, pid: u32 },
}

impl View for Query {
    type V = QueryView;

    open spec fn view(&self) -> QueryView {
        match *self {
            Query::Version => QueryView::Version,
            Query::EnumerateDevices => QueryView::EnumerateDevices,
            Query::EnumerateProcesses { device_id } => QueryView::EnumerateProcesses {
                device_id: device_id@,
            },
            Query::Attach { device_id, pid, session_id } => QueryView::Attach {
                device_id: device_id@,
                pid,
                session_id,
            },
            Query::IsDetached { session_id } => QueryView::IsDetached { session_id },
            Query::CreateScript { session_id, script_id, name, source } => QueryView::CreateScript {
                session_id,
                script_id,
                name: name@,
                source: source@,
            },
            Query::SubscribeMessages { session_id, script_id } => QueryView::SubscribeMessages {
                session_id,
                script_id,
            },
            Query::LoadScript { script_id } => QueryView::LoadScript { script_id },
            Query::UnloadScript { script_id } => QueryView::UnloadScript { script_id },
            Query::DetachSession { session_id } => QueryView::DetachSession { session_id },
            Query::Post { script_id, message, data } => QueryView::Post {
                script_id,
                message: message@,
                data: data.deep_view(),
            },
            Query::Spawn { device_id, program, argv } => QueryView::Spawn {
                device_id: device_id@,
                program: program@,
                argv: argv.deep_view(),
            },
            Query::Resume { device_id, pid } => QueryView::Resume { device_id: device_id@, pid },
            Query::Kill { device_id, pid } => QueryView::Kill { device_id: device_id@, pid },
        }
    }
}

impl QueryView {
    /// The handle that the host must hold to make the call, if the call
    /// goes through a handle at all.
    pub open spec fn handle(self) -> Option<(HandleKind, u64)> {
        match self {
            QueryView::IsDetached { session_id } => Some((HandleKind::Session, session_id)),
            QueryView::DetachSession { session_id } => Some((HandleKind::Session, session_id)),
            QueryView::CreateScript { session_id, .. } => Some((HandleKind::Session, session_id)),
            QueryView::SubscribeMessages { script_id, .. } => Some((HandleKind::Script, script_id)),
            QueryView::LoadScript { script_id } => Some((HandleKind::Script, script_id)),
            QueryView::UnloadScript { script_id } => Some((HandleKind::Script, script_id)),
            QueryView::Post { script_id, .. } => Some((HandleKind::Script, script_id)),
            _ => None,
        }
    }

    /// The answer to a query whose handle the host does not hold: a
    /// session that is not held counts as detached, and every other call
    /// fails as an unknown handle. A call that goes through no handle has
    /// no such answer.
    pub open spec fn unheld(self) -> Option<AnswerView> {
        match self.handle() {
            None => None,
            Some((kind, _)) => Some(
                if self is IsDetached {
                    AnswerView::Detached(true)
                } else {
                    AnswerView::Completed(Err(ServiceErrorView::UnknownHandle(kind).text()))
                },
            ),
        }
    }
}

impl Query {
    /// Tells which handle the host must hold to make the call.
    pub fn handle(&self) -> (held: Option<(HandleKind, u64)>)
        ensures
            held == self@.handle(),
    {
        match self {
            Query::IsDetached { session_id } => Some((HandleKind::Session, *session_id)),
            Query::DetachSession { session_id } => Some((HandleKind::Session, *session_id)),
            Query::CreateScript { session_id, .. } => Some((HandleKind::Session, *session_id)),
            Query::SubscribeMessages { script_id, .. } => Some((HandleKind::Script, *script_id)),
            Query::LoadScript { script_id } => Some((HandleKind::Script, *script_id)),
            Query::UnloadScript { script_id } => Some((HandleKind::Script, *script_id)),
            Query::Post { script_id, .. } => Some((HandleKind::Script, *script_id)),
            _ => None,
        }
    }

    /// Answers in the toolkit's place when the host does not hold the
    /// handle that the call goes through.
    pub fn unheld(&self) -> (answer: Option<Answer>)
        ensures
            match answer {
                Some(given) => self@.unheld() == Some(given@) && answers(self@, given@),
                None => self@.unheld() is None,
            },
    {
        match self.handle() {
            None => None,
            Some((kind, _)) => match self {
                Query::IsDetached { .. } => Some(Answer::Detached(true)),
                _ => Some(Answer::Completed(Err(ServiceError::UnknownHandle(kind).message()))),
            },
        }
    }
}

/// Whether `answer` is of the kind that the toolkit gives to `query`.
pub open spec fn answers(query: QueryView, answer: AnswerView) -> bool {
    match query {
        QueryView::Version => answer is Text,
        QueryView::EnumerateDevices => answer is Devices,
        QueryView::EnumerateProcesses { .. } => answer is Processes,
        QueryView::IsDetached { .. } => answer is Detached,
        QueryView::Spawn { .. } => answer is Spawned,
        _ => answer is Completed,
    }
}

/// What the toolkit returned for a [`Query`]. A failure carries the
/// toolkit's own message.
#[derive(Debug, PartialEq, Eq)]
pub enum Answer {
    /// For `Version`.
    Text(String),
    /// For `EnumerateDevices`.
    Devices(Vec<DeviceInfo>),
    /// For `EnumerateProcesses`.
    Processes(Result<Vec<ProcessInfo>, String>),
    /// For `IsDetached`.
    Detached(bool),
    /// For `Spawn`.
    Spawned(Result<u32, String>),
    /// For every other query.
    Completed(Result<(), String>),
}

/// A toolkit result with its failure message as a mathematical value.
pub open spec fn outcome_view<T>(outcome: Result<T, String>) -> Result<T, Seq<char>> {
    match outcome {
        Ok(value) => Ok(value),
        Err(message) => Err(message@),
    }
}

/// An enumeration result as a mathematical value.
pub open spec fn listing_view(outcome: Result<Vec<ProcessInfo>, String>) -> Result<
    Seq<ProcessInfoView>,
    Seq<char>,
> {
    match outcome {
        Ok(processes) => Ok(processes.deep_view()),
        Err(message) => Err(message@),
    }
}

/// Mathematical value of an [`Answer`].
pub enum AnswerView {
    Text(Seq<char>),
    Devices(Seq<DeviceInfoView>),
    Processes(Result<Seq<ProcessInfoView>, Seq<char>>),
    Detached(bool),
    Spawned(Result<u32, Seq<char>>),
    Completed(Result<(), Seq<char>>),
}

impl View for Answer {
    type V = AnswerView;

    open spec fn view(&self) -> AnswerView {
        match *self {
            Answer::Text(text) => AnswerView::Text(text@),
            Answer::Devices(devices) => AnswerView::Devices(devices.deep_view()),
            Answer::Processes(outcome) => AnswerView::Processes(listing_view(outcome)),
            Answer::Detached(detached) => AnswerView::Detached(detached),
            Answer::Spawned(outcome) => AnswerView::Spawned(outcome_view(outcome)),
            Answer::Completed(outcome) => AnswerView::Completed(outcome_view(outcome)),
        }
    }
}

/// The result of one operation, as its caller receives it.
#[derive(Debug, PartialEq, Eq)]
pub enum Reply {
    Version(String),
    Devices(Vec<DeviceInfo>),
    Processes(Result<Vec<ProcessInfo>, ServiceError>),
    Attached(Result<SessionInfo, ServiceError>),
    ScriptLoaded(Result<ScriptInfo, ServiceError>),
    Spawned(Result<u32, ServiceError>),
    /// For `detach`, `unload_script`, `script_post`, `resume` and `kill`.
    Unit(Result<(), ServiceError>),
    /// A health poll has finished; no caller waits for it.
    Polled,
}

/// Mathematical value of a [`Reply`].
pub enum ReplyView {
    Version(Seq<char>),
    Devices(Seq<DeviceInfoView>),
    Processes(Result<Seq<ProcessInfoView>, ServiceErrorView>),
    Attached(Result<SessionInfo, ServiceErrorView>),
    ScriptLoaded(Result<ScriptInfo, ServiceErrorView>),
    Spawned(Result<u32, ServiceErrorView>),
    Unit(Result<(), ServiceErrorView>),
    Polled,
}

impl View for Reply {
    type V = ReplyView;

    open spec fn view(&self) -> ReplyView {
        match *self {
            Reply::Version(text) => ReplyView::Version(text@),
            Reply::Devices(devices) => ReplyView::Devices(devices.deep_view()),
            Reply::Processes(Ok(processes)) => ReplyView::Processes(Ok(processes.deep_view())),
            Reply::Processes(Err(error)) => ReplyView::Processes(Err(error@)),
            Reply::Attached(Ok(info)) => ReplyView::Attached(Ok(info)),
            Reply::Attached(Err(error)) => ReplyView::Attached(Err(error@)),
            Reply::ScriptLoaded(Ok(info)) => ReplyView::ScriptLoaded(Ok(info)),
            Reply::ScriptLoaded(Err(error)) => ReplyView::ScriptLoaded(Err(error@)),
            Reply::Spawned(Ok(pid)) => ReplyView::Spawned(Ok(pid)),
            Reply::Spawned(Err(error)) => ReplyView::Spawned(Err(error@)),
            Reply::Unit(Ok(())) => ReplyView::Unit(Ok(())),
            Reply::Unit(Err(error)) => ReplyView::Unit(Err(error@)),
            Reply::Polled => ReplyView::Polled,
        }
    }
}

/// How a step ends.
#[derive(Debug, PartialEq, Eq)]
pub enum Next {
    /// The host makes this call and delivers its answer.
    Ask(Query),
    /// The operation is over.
    Reply(Reply),
}

/// Mathematical value of a [`Next`].
pub enum NextView {
    Ask(QueryView),
    Reply(ReplyView),
}

impl View for Next {
    type V = NextView;

    open spec fn view(&self) -> NextView {
        match *self {
            Next::Ask(query) => NextView::Ask(query@),
            Next::Reply(reply) => NextView::Reply(reply@),
        }
    }
}

/// One move of the actor: effects first, in order, then `next`.
#[derive(Debug, PartialEq, Eq)]
pub struct Step {
    pub effects: Vec<Effect>,
    pub next: Next,
}

/// Mathematical value of a [`Step`].
pub struct StepView {
    pub effects: Seq<EffectView>,
    pub next: NextView,
}

impl View for Step {
    type V = StepView;

    open spec fn view(&self) -> StepView {
        StepView { effects: self.effects.deep_view(), next: self.next@ }
    }
}

} // verus!
