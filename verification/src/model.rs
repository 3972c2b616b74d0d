//! The actor as a state machine over mathematical values.
//!
//! Every operation starts with one function of [`ContextModel`] and goes on
//! with [`ContextModel::deliver`] for each answer of the toolkit, until a
//! step ends in a reply. The executable actor does exactly what is written
//! here; the laws of the service are proved of these functions.

use crate::agent::agent_name;
use crate::error::{HandleKind, ServiceErrorView};
use crate::protocol::{
    AnswerView, DetachReason, EffectView, NextView, NoticeView, QueryView, ReplyView, StepView,
};
use crate::registry_model::{RegistryModel, SessionModel};
use crate::types::{ProcessInfoView, ScriptInfo, SessionInfo};
use crate::validation::{argv_label, has_nul, some_nul_arg, the_nul_arg};
use vstd::prelude::*;

verus! {

/// How long an enumerated process list may be served again, in
/// milliseconds.
pub const PROCESS_CACHE_TTL_MS: u64 = 2000;

/// The last process list that was enumerated.
pub struct CacheModel {
    pub device_id: Seq<char>,
    pub fetched_at: u64,
    pub processes: Seq<ProcessInfoView>,
}

impl CacheModel {
    /// Whether the list answers a request for `device_id` at time `now`.
    pub open spec fn serves(self, device_id: Seq<char>, now: u64) -> bool {
        self.device_id == device_id && now - self.fetched_at < PROCESS_CACHE_TTL_MS
    }
}

/// Who asked for the agent to be loaded.
#[derive(Debug, Clone, Copy, PartialEq, Eq, Structural)]
pub enum LoadOrigin {
    /// A caller of `load_default_script`.
    Direct,
    /// `attach`, which undoes the new session when loading fails.
    Attach,
}

/// Why a script is being unloaded.
pub enum PurposeModel {
    /// A caller of `unload_script` asked for it.
    Single,
    /// Its session is being detached on request.
    Detach,
    /// The poller clears the sessions in `queue`; the first is the owner.
    Sweep { queue: Seq<u64> },
}

/// What the actor waits for.
pub enum PendingModel {
    /// Nothing: the next operation may start.
    Idle,
    Version,
    ListDevices,
    ListProcesses { device_id: Seq<char> },
    Attach { device_id: Seq<char>, pid: u32 },
    /// Is the session still attached, before a script id is spent on it?
    LoadProbe { session_id: u64, origin: LoadOrigin },
    LoadCreate { session_id: u64, script_id: u64, origin: LoadOrigin },
    LoadSubscribe { session_id: u64, script_id: u64, origin: LoadOrigin },
    LoadStart { session_id: u64, script_id: u64, origin: LoadOrigin },
    /// Is the owner still attached, so that the toolkit may be asked to
    /// unload? The script has left the registry already.
    UnloadProbe { script_id: u64, session_id: u64, purpose: PurposeModel },
    UnloadCall { script_id: u64, session_id: u64, purpose: PurposeModel },
    /// The toolkit detaches a session that has left the registry; `record`
    /// is kept in case it must come back.
    Detach { session_id: u64, record: SessionModel },
    /// Detaching failed with `failure`: was the session gone already?
    DetachProbe { session_id: u64, record: SessionModel, failure: Seq<char> },
    /// The poller asks about the first session of `queue`; those in `found`
    /// were reported detached.
    PollScan { queue: Seq<u64>, found: Seq<u64> },
    /// Is the owner attached, before the encoded message is looked at?
    PostProbe { script_id: u64, encoded: Result<Seq<char>, Seq<char>>, data: Option<Seq<u8>> },
    Post,
    Spawn,
    /// `resume` or `kill`: the toolkit's verdict is the reply.
    Passthrough,
}

/// Everything the actor owns besides the toolkit's handles.
pub struct ContextModel {
    pub registry: RegistryModel,
    pub cache: Option<CacheModel>,
    /// The agent's source, or why it cannot be loaded.
    pub agent: Result<Seq<char>, ServiceErrorView>,
    pub pending: PendingModel,
}

/// The state after a step, and the step.
pub type Move = (ContextModel, StepView);

/// The failure for a call that the toolkit refused with `message`.
pub open spec fn refused(message: Seq<char>) -> ServiceErrorView {
    ServiceErrorView::DeviceError { message }
}

/// A step that ends an operation with `reply` and asks nothing of the
/// host.
pub open spec fn plain_reply(reply: ReplyView) -> StepView {
    StepView { effects: Seq::empty(), next: NextView::Reply(reply) }
}

/// The failure for a string argument called `label` that holds a NUL.
pub open spec fn nul_in(label: Seq<char>) -> ServiceErrorView {
    ServiceErrorView::InputValidation { label }
}

/// A toolkit verdict as the reply of an operation without a value.
pub open spec fn verdict_reply(outcome: Result<(), Seq<char>>) -> ReplyView {
    match outcome {
        Ok(()) => ReplyView::Unit(Ok(())),
        Err(message) => ReplyView::Unit(Err(refused(message))),
    }
}

impl ContextModel {
    /// The actor before its first operation.
    pub open spec fn start(agent: Result<Seq<char>, ServiceErrorView>) -> ContextModel {
        ContextModel::start_at(agent, 1, 1)
    }

    /// The actor before its first operation, with counters that begin at
    /// the given ids.
    pub open spec fn start_at(
        agent: Result<Seq<char>, ServiceErrorView>,
        first_session_id: u64,
        first_script_id: u64,
    ) -> ContextModel {
        ContextModel {
            registry: RegistryModel::starting_at(first_session_id, first_script_id),
            cache: None,
            agent,
            pending: PendingModel::Idle,
        }
    }

    /// Whether the next operation may start.
    pub open spec fn idle(self) -> bool {
        self.pending is Idle
    }

    /// Ends the operation with `reply`.
    pub open spec fn finish(self, effects: Seq<EffectView>, reply: ReplyView) -> Move {
        (
            ContextModel { pending: PendingModel::Idle, ..self },
            StepView { effects, next: NextView::Reply(reply) },
        )
    }

    /// Asks the toolkit and remembers what the answer is for.
    pub open spec fn ask(
        self,
        pending: PendingModel,
        effects: Seq<EffectView>,
        query: QueryView,
    ) -> Move {
        (ContextModel { pending, ..self }, StepView { effects, next: NextView::Ask(query) })
    }

    /// The same state with another query under way.
    pub open spec fn with_pending(self, pending: PendingModel) -> ContextModel {
        ContextModel { pending, ..self }
    }

    /// The same state with another registry.
    pub open spec fn with_registry(self, registry: RegistryModel) -> ContextModel {
        ContextModel { registry, ..self }
    }

    // ------------------------------------------------------------------
    // version, list_devices
    // ------------------------------------------------------------------
    /// `version`: the toolkit is asked; its text is the reply.
    pub open spec fn version(self) -> Move {
        self.ask(PendingModel::Version, Seq::empty(), QueryView::Version)
    }

    /// `list_devices`: the toolkit is asked; its list is the reply.
    pub open spec fn list_devices(self) -> Move {
        self.ask(PendingModel::ListDevices, Seq::empty(), QueryView::EnumerateDevices)
    }

    // ------------------------------------------------------------------
    // list_processes
    // ------------------------------------------------------------------
    /// `list_processes`: a NUL in the id and the device class `socket` are
    /// refused; a cached list that is young enough is served; else the
    /// toolkit enumerates.
    pub open spec fn list_processes(self, device_id: Seq<char>, now: u64) -> Move {
        if has_nul(device_id) {
            self.finish(Seq::empty(), ReplyView::Processes(Err(nul_in("device_id"@))))
        } else if device_id == "socket"@ {
            self.finish(
                Seq::empty(),
                ReplyView::Processes(Err(ServiceErrorView::UnsupportedDevice)),
            )
        } else if self.cache is Some && self.cache->0.serves(device_id, now) {
            self.finish(Seq::empty(), ReplyView::Processes(Ok(self.cache->0.processes)))
        } else {
            self.ask(
                PendingModel::ListProcesses { device_id },
                Seq::empty(),
                QueryView::EnumerateProcesses { device_id },
            )
        }
    }

    /// The toolkit has enumerated: a list replaces the cache, stamped `now`.
    pub open spec fn processes_listed(
        self,
        device_id: Seq<char>,
        outcome: Result<Seq<ProcessInfoView>, Seq<char>>,
        now: u64,
    ) -> Move {
        match outcome {
            Err(message) => self.finish(Seq::empty(), ReplyView::Processes(Err(refused(message)))),
            Ok(processes) => ContextModel {
                cache: Some(CacheModel { device_id, fetched_at: now, processes }),
                ..self
            }.finish(Seq::empty(), ReplyView::Processes(Ok(processes))),
        }
    }

    // ------------------------------------------------------------------
    // attach, load_default_script
    // ------------------------------------------------------------------
    /// `attach`: after validation the toolkit attaches; the handles are to
    /// be kept under the id that the session will get.
    pub open spec fn attach(self, device_id: Seq<char>, pid: u32) -> Move {
        if has_nul(device_id) {
            self.finish(Seq::empty(), ReplyView::Attached(Err(nul_in("device_id"@))))
        } else if !self.registry.has_session_id() {
            self.finish(Seq::empty(), ReplyView::Attached(Err(ServiceErrorView::IdsExhausted)))
        } else {
            self.ask(
                PendingModel::Attach { device_id, pid },
                Seq::empty(),
                QueryView::Attach { device_id, pid, session_id: self.registry.next_session_id },
            )
        }
    }

    /// The toolkit has attached: the session is registered and the agent is
    /// loaded into it at once.
    pub open spec fn attached(
        self,
        device_id: Seq<char>,
        pid: u32,
        outcome: Result<(), Seq<char>>,
    ) -> Move {
        match outcome {
            Err(message) => self.finish(Seq::empty(), ReplyView::Attached(Err(refused(message)))),
            Ok(()) => if !self.registry.has_session_id() {
                self.finish(
                    seq![EffectView::ReleaseSession { session_id: self.registry.next_session_id }],
                    ReplyView::Attached(Err(ServiceErrorView::IdsExhausted)),
                )
            } else {
                self.with_registry(self.registry.open_session(device_id, pid)).begin_load(
                    self.registry.next_session_id,
                    LoadOrigin::Attach,
                )
            },
        }
    }

    /// `load_default_script`.
    pub open spec fn load_default_script(self, session_id: u64) -> Move {
        self.begin_load(session_id, LoadOrigin::Direct)
    }

    /// Loading starts: the agent must be usable and the session known; then
    /// the toolkit is asked whether the session is still attached.
    pub open spec fn begin_load(self, session_id: u64, origin: LoadOrigin) -> Move {
        match self.agent {
            Err(fault) => self.fail_load(session_id, origin, Seq::empty(), fault),
            Ok(_) => if !self.registry.sessions.contains_key(session_id) {
                self.fail_load(
                    session_id,
                    origin,
                    Seq::empty(),
                    ServiceErrorView::UnknownHandle(HandleKind::Session),
                )
            } else {
                self.ask(
                    PendingModel::LoadProbe { session_id, origin },
                    Seq::empty(),
                    QueryView::IsDetached { session_id },
                )
            },
        }
    }

    /// Loading fails with `error`. For `attach` the new session is taken
    /// back first, so that no caller sees it half attached.
    pub open spec fn fail_load(
        self,
        session_id: u64,
        origin: LoadOrigin,
        effects: Seq<EffectView>,
        error: ServiceErrorView,
    ) -> Move {
        match origin {
            LoadOrigin::Direct => self.finish(effects, ReplyView::ScriptLoaded(Err(error))),
            LoadOrigin::Attach => self.with_registry(
                self.registry.remove_session(session_id),
            ).finish(
                effects.push(EffectView::ReleaseSession { session_id }),
                ReplyView::Attached(Err(error)),
            ),
        }
    }

    /// The session's state is known: a detached one gets no script; an
    /// attached one gets a new script id and the toolkit creates the script.
    pub open spec fn load_probed(
        self,
        session_id: u64,
        origin: LoadOrigin,
        detached: bool,
    ) -> Move {
        if detached {
            self.fail_load(session_id, origin, Seq::empty(), ServiceErrorView::SessionDetached)
        } else if !self.registry.has_script_id() {
            self.fail_load(session_id, origin, Seq::empty(), ServiceErrorView::IdsExhausted)
        } else {
            match self.agent {
                Err(fault) => self.fail_load(session_id, origin, Seq::empty(), fault),
                Ok(source) => self.with_registry(self.registry.reserve_script_id()).ask(
                    PendingModel::LoadCreate {
                        session_id,
                        script_id: self.registry.next_script_id,
                        origin,
                    },
                    Seq::empty(),
                    QueryView::CreateScript {
                        session_id,
                        script_id: self.registry.next_script_id,
                        name: agent_name(),
                        source,
                    },
                ),
            }
        }
    }

    /// The script exists: its messages are routed next.
    pub open spec fn load_created(
        self,
        session_id: u64,
        script_id: u64,
        origin: LoadOrigin,
        outcome: Result<(), Seq<char>>,
    ) -> Move {
        match outcome {
            Err(message) => self.fail_load(session_id, origin, Seq::empty(), refused(message)),
            Ok(()) => self.ask(
                PendingModel::LoadSubscribe { session_id, script_id, origin },
                Seq::empty(),
                QueryView::SubscribeMessages { session_id, script_id },
            ),
        }
    }

    /// The messages are routed: the script is loaded next. On failure the
    /// created script is given up.
    pub open spec fn load_subscribed(
        self,
        session_id: u64,
        script_id: u64,
        origin: LoadOrigin,
        outcome: Result<(), Seq<char>>,
    ) -> Move {
        match outcome {
            Err(message) => self.fail_load(
                session_id,
                origin,
                seq![EffectView::ReleaseScript { script_id }],
                refused(message),
            ),
            Ok(()) => self.ask(
                PendingModel::LoadStart { session_id, script_id, origin },
                Seq::empty(),
                QueryView::LoadScript { script_id },
            ),
        }
    }

    /// The script runs: only now is it registered. On failure the created
    /// script is given up.
    pub open spec fn load_started(
        self,
        session_id: u64,
        script_id: u64,
        origin: LoadOrigin,
        outcome: Result<(), Seq<char>>,
    ) -> Move {
        match outcome {
            Err(message) => self.fail_load(
                session_id,
                origin,
                seq![EffectView::ReleaseScript { script_id }],
                refused(message),
            ),
            Ok(()) => if !self.registry.sessions.contains_key(session_id) {
                self.fail_load(
                    session_id,
                    origin,
                    seq![EffectView::ReleaseScript { script_id }],
                    ServiceErrorView::UnknownHandle(HandleKind::Session),
                )
            } else {
                let next = self.with_registry(self.registry.add_script(session_id, script_id));
                match origin {
                    LoadOrigin::Direct => next.finish(
                        Seq::empty(),
                        ReplyView::ScriptLoaded(Ok(ScriptInfo { script_id })),
                    ),
                    LoadOrigin::Attach => next.finish(
                        seq![
                            EffectView::Emit(
                                NoticeView::SessionAttached {
                                    session_id,
                                    script_id,
                                    device_id: self.registry.sessions[session_id].device_id,
                                    pid: self.registry.sessions[session_id].pid,
                                },
                            ),
                        ],
                        ReplyView::Attached(Ok(SessionInfo { session_id, script_id })),
                    ),
                }
            },
        }
    }

    // ------------------------------------------------------------------
    // unload_script
    // ------------------------------------------------------------------
    /// `unload_script`: an unknown id is refused. Else the script leaves
    /// the registry, and the toolkit is asked whether its session is still
    /// attached; without a session nothing is unloaded.
    pub open spec fn unload_script(self, script_id: u64) -> Move {
        if !self.registry.scripts.contains_key(script_id) {
            self.finish(
                Seq::empty(),
                ReplyView::Unit(Err(ServiceErrorView::UnknownHandle(HandleKind::Script))),
            )
        } else {
            let session_id = self.registry.scripts[script_id];
            let next = self.with_registry(self.registry.remove_script(script_id));
            if self.registry.sessions.contains_key(session_id) {
                next.ask(
                    PendingModel::UnloadProbe {
                        script_id,
                        session_id,
                        purpose: PurposeModel::Single,
                    },
                    Seq::empty(),
                    QueryView::IsDetached { session_id },
                )
            } else {
                next.finish(seq![EffectView::ReleaseScript { script_id }], ReplyView::Unit(Ok(())))
            }
        }
    }

    /// A teardown unloads the oldest script of `session_id`: the script
    /// leaves the registry and the toolkit is asked whether the session is
    /// still attached.
    pub open spec fn unload_oldest(
        self,
        session_id: u64,
        purpose: PurposeModel,
        effects: Seq<EffectView>,
    ) -> Move {
        let script_id = self.registry.scripts_of(session_id)[0];
        self.with_registry(self.registry.remove_script(script_id)).ask(
            PendingModel::UnloadProbe { script_id, session_id, purpose },
            effects,
            QueryView::IsDetached { session_id },
        )
    }

    /// The owner's state is known: only an attached session is asked to
    /// unload; for a detached one the unloading counts as done.
    pub open spec fn unload_probed(
        self,
        script_id: u64,
        session_id: u64,
        purpose: PurposeModel,
        detached: bool,
    ) -> Move {
        if detached {
            self.end_unload(script_id, session_id, purpose, Seq::empty(), Ok(()))
        } else {
            self.ask(
                PendingModel::UnloadCall { script_id, session_id, purpose },
                Seq::empty(),
                QueryView::UnloadScript { script_id },
            )
        }
    }

    /// The unloading is over, whatever came of it: the script's handle is
    /// given up. A caller of `unload_script` gets the verdict; a teardown
    /// goes on and forgets it.
    pub open spec fn end_unload(
        self,
        script_id: u64,
        session_id: u64,
        purpose: PurposeModel,
        effects: Seq<EffectView>,
        outcome: Result<(), Seq<char>>,
    ) -> Move {
        let effects = effects.push(EffectView::ReleaseScript { script_id });
        match purpose {
            PurposeModel::Single => self.finish(effects, verdict_reply(outcome)),
            PurposeModel::Detach => self.teardown(session_id, effects),
            PurposeModel::Sweep { queue } => self.sweep(queue, effects),
        }
    }

    // ------------------------------------------------------------------
    // detach
    // ------------------------------------------------------------------
    /// `detach`: an unknown id is refused with the registry untouched; else
    /// the session's scripts are unloaded first.
    pub open spec fn detach(self, session_id: u64) -> Move {
        self.teardown(session_id, Seq::empty())
    }

    /// One round of a requested detach: the oldest script is unloaded, or,
    /// with none left, the session leaves the registry and the toolkit is
    /// asked to detach it.
    pub open spec fn teardown(self, session_id: u64, effects: Seq<EffectView>) -> Move {
        if self.registry.scripts_of(session_id).len() > 0 {
            self.unload_oldest(session_id, PurposeModel::Detach, effects)
        } else if !self.registry.sessions.contains_key(session_id) {
            self.finish(
                effects,
                ReplyView::Unit(Err(ServiceErrorView::UnknownHandle(HandleKind::Session))),
            )
        } else {
            self.with_registry(self.registry.remove_session(session_id)).ask(
                PendingModel::Detach { session_id, record: self.registry.sessions[session_id] },
                effects,
                QueryView::DetachSession { session_id },
            )
        }
    }

    /// The toolkit has answered the detach request. A failure is looked
    /// into before it is reported.
    pub open spec fn detach_called(
        self,
        session_id: u64,
        record: SessionModel,
        outcome: Result<(), Seq<char>>,
    ) -> Move {
        match outcome {
            Ok(()) => self.finish(
                detached_effects(session_id, DetachReason::User),
                ReplyView::Unit(Ok(())),
            ),
            Err(failure) => self.ask(
                PendingModel::DetachProbe { session_id, record, failure },
                Seq::empty(),
                QueryView::IsDetached { session_id },
            ),
        }
    }

    /// Detaching had failed. If the session was gone already, that is a
    /// success with another reason; else the session comes back and the
    /// failure is reported.
    pub open spec fn detach_probed(
        self,
        session_id: u64,
        record: SessionModel,
        failure: Seq<char>,
        detached: bool,
    ) -> Move {
        if detached {
            self.finish(
                detached_effects(session_id, DetachReason::Disposed),
                ReplyView::Unit(Ok(())),
            )
        } else {
            self.with_registry(self.registry.restore_session(session_id, record)).finish(
                Seq::empty(),
                ReplyView::Unit(Err(refused(failure))),
            )
        }
    }

    // ------------------------------------------------------------------
    // the health poller
    // ------------------------------------------------------------------
    /// A health poll over the registered sessions, asked about in the
    /// order `order`.
    pub open spec fn poll_detached_sessions(self, order: Seq<u64>) -> Move {
        self.scan(order, Seq::empty())
    }

    /// The poller asks about the next session, or, with none left, clears
    /// those found detached.
    pub open spec fn scan(self, queue: Seq<u64>, found: Seq<u64>) -> Move {
        if queue.len() > 0 {
            self.ask(
                PendingModel::PollScan { queue, found },
                Seq::empty(),
                QueryView::IsDetached { session_id: queue[0] },
            )
        } else {
            self.sweep(found, Seq::empty())
        }
    }

    /// The toolkit has told whether the first session of `queue` is
    /// detached.
    pub open spec fn poll_scanned(self, queue: Seq<u64>, found: Seq<u64>, detached: bool) -> Move {
        if queue.len() == 0 {
            self.sweep(found, Seq::empty())
        } else {
            self.scan(
                queue.drop_first(),
                if detached {
                    found.push(queue[0])
                } else {
                    found
                },
            )
        }
    }

    /// Clears the detached sessions in `queue`, first to last: the scripts
    /// of a session are unloaded one by one, then the session leaves the
    /// registry and the subscriber is told.
    pub open spec fn sweep(self, queue: Seq<u64>, effects: Seq<EffectView>) -> Move
        decreases queue.len(),
    {
        if queue.len() == 0 {
            self.finish(effects, ReplyView::Polled)
        } else {
            let session_id = queue[0];
            if self.registry.scripts_of(session_id).len() > 0 {
                self.unload_oldest(session_id, PurposeModel::Sweep { queue }, effects)
            } else {
                self.with_registry(self.registry.remove_session(session_id)).sweep(
                    queue.drop_first(),
                    effects + swept_effects(session_id),
                )
            }
        }
    }

    // ------------------------------------------------------------------
    // script_post
    // ------------------------------------------------------------------
    /// `script_post`: the script and its session must be registered; then
    /// the toolkit is asked whether the session is attached. `encoded` is
    /// what the JSON encoder made of the message.
    pub open spec fn script_post(
        self,
        script_id: u64,
        encoded: Result<Seq<char>, Seq<char>>,
        data: Option<Seq<u8>>,
    ) -> Move {
        if !self.registry.scripts.contains_key(script_id) {
            self.finish(
                Seq::empty(),
                ReplyView::Unit(Err(ServiceErrorView::UnknownHandle(HandleKind::Script))),
            )
        } else if !self.registry.sessions.contains_key(self.registry.scripts[script_id]) {
            self.finish(
                Seq::empty(),
                ReplyView::Unit(Err(ServiceErrorView::UnknownHandle(HandleKind::Session))),
            )
        } else {
            self.ask(
                PendingModel::PostProbe { script_id, encoded, data },
                Seq::empty(),
                QueryView::IsDetached { session_id: self.registry.scripts[script_id] },
            )
        }
    }

    /// The owner's state is known: to an attached session the message is
    /// forwarded, unless encoding failed or left a NUL in the text.
    pub open spec fn post_probed(
        self,
        script_id: u64,
        encoded: Result<Seq<char>, Seq<char>>,
        data: Option<Seq<u8>>,
        detached: bool,
    ) -> Move {
        if detached {
            self.finish(Seq::empty(), ReplyView::Unit(Err(ServiceErrorView::SessionDetached)))
        } else {
            match encoded {
                Err(message) => self.finish(
                    Seq::empty(),
                    ReplyView::Unit(Err(ServiceErrorView::Encoding { message })),
                ),
                Ok(message) => if has_nul(message) {
                    self.finish(Seq::empty(), ReplyView::Unit(Err(nul_in("message"@))))
                } else {
                    self.ask(
                        PendingModel::Post,
                        Seq::empty(),
                        QueryView::Post { script_id, message, data },
                    )
                },
            }
        }
    }

    // ------------------------------------------------------------------
    // spawn, resume, kill
    // ------------------------------------------------------------------
    /// `spawn`: the device id, the program and every argument are checked
    /// for NUL, in this order. Only when all have passed is the cached
    /// process list dropped and the toolkit asked to spawn.
    pub open spec fn spawn(
        self,
        device_id: Seq<char>,
        program: Seq<char>,
        argv: Option<Seq<Seq<char>>>,
    ) -> Move {
        if has_nul(device_id) {
            self.finish(Seq::empty(), ReplyView::Spawned(Err(nul_in("device_id"@))))
        } else if has_nul(program) {
            self.finish(Seq::empty(), ReplyView::Spawned(Err(nul_in("program"@))))
        } else if some_nul_arg(argv) {
            self.finish(
                Seq::empty(),
                ReplyView::Spawned(Err(nul_in(argv_label(the_nul_arg(argv))))),
            )
        } else {
            ContextModel { cache: None, ..self }.ask(
                PendingModel::Spawn,
                Seq::empty(),
                QueryView::Spawn { device_id, program, argv },
            )
        }
    }

    /// The toolkit has spawned, or refused to.
    pub open spec fn spawned(self, outcome: Result<u32, Seq<char>>) -> Move {
        match outcome {
            Ok(pid) => self.finish(Seq::empty(), ReplyView::Spawned(Ok(pid))),
            Err(message) => self.finish(Seq::empty(), ReplyView::Spawned(Err(refused(message)))),
        }
    }

    /// `resume`: a checked pass to the toolkit.
    pub open spec fn resume(self, device_id: Seq<char>, pid: u32) -> Move {
        if has_nul(device_id) {
            self.finish(Seq::empty(), ReplyView::Unit(Err(nul_in("device_id"@))))
        } else {
            self.ask(PendingModel::Passthrough, Seq::empty(), QueryView::Resume { device_id, pid })
        }
    }

    /// `kill`: a checked pass to the toolkit that drops the cached process
    /// list.
    pub open spec fn kill(self, device_id: Seq<char>, pid: u32) -> Move {
        if has_nul(device_id) {
            self.finish(Seq::empty(), ReplyView::Unit(Err(nul_in("device_id"@))))
        } else {
            ContextModel { cache: None, ..self }.ask(
                PendingModel::Passthrough,
                Seq::empty(),
                QueryView::Kill { device_id, pid },
            )
        }
    }

    // ------------------------------------------------------------------
    // answers
    // ------------------------------------------------------------------
    /// Whether `answer` is of the kind that the pending query calls for.
    pub open spec fn expects(self, answer: AnswerView) -> bool {
        match self.pending {
            PendingModel::Idle => false,
            PendingModel::Version => answer is Text,
            PendingModel::ListDevices => answer is Devices,
            PendingModel::ListProcesses { .. } => answer is Processes,
            PendingModel::Spawn => answer is Spawned,
            PendingModel::LoadProbe { .. }
            | PendingModel::UnloadProbe { .. }
            | PendingModel::DetachProbe { .. }
            | PendingModel::PollScan { .. }
            | PendingModel::PostProbe { .. } => answer is Detached,
            PendingModel::Attach { .. }
            | PendingModel::LoadCreate { .. }
            | PendingModel::LoadSubscribe { .. }
            | PendingModel::LoadStart { .. }
            | PendingModel::UnloadCall { .. }
            | PendingModel::Detach { .. }
            | PendingModel::Post
            | PendingModel::Passthrough => answer is Completed,
        }
    }

    /// The step that follows the toolkit's answer to the pending query, at
    /// time `now`. An answer of the wrong kind changes nothing.
    pub open spec fn deliver(self, answer: AnswerView, now: u64) -> Move {
        match (self.pending, answer) {
            (PendingModel::Version, AnswerView::Text(text)) => self.finish(
                Seq::empty(),
                ReplyView::Version(text),
            ),
            (PendingModel::ListDevices, AnswerView::Devices(devices)) => self.finish(
                Seq::empty(),
                ReplyView::Devices(devices),
            ),
            (
                PendingModel::ListProcesses { device_id },
                AnswerView::Processes(outcome),
            ) => self.processes_listed(device_id, outcome, now),
            (PendingModel::Attach { device_id, pid }, AnswerView::Completed(outcome)) =>
                self.attached(device_id, pid, outcome),
            (PendingModel::LoadProbe { session_id, origin }, AnswerView::Detached(detached)) =>
                self.load_probed(session_id, origin, detached),
            (
                PendingModel::LoadCreate { session_id, script_id, origin },
                AnswerView::Completed(outcome),
            ) => self.load_created(session_id, script_id, origin, outcome),
            (
                PendingModel::LoadSubscribe { session_id, script_id, origin },
                AnswerView::Completed(outcome),
            ) => self.load_subscribed(session_id, script_id, origin, outcome),
            (
                PendingModel::LoadStart { session_id, script_id, origin },
                AnswerView::Completed(outcome),
            ) => self.load_started(session_id, script_id, origin, outcome),
            (
                PendingModel::UnloadProbe { script_id, session_id, purpose },
                AnswerView::Detached(detached),
            ) => self.unload_probed(script_id, session_id, purpose, detached),
            (
                PendingModel::UnloadCall { script_id, session_id, purpose },
                AnswerView::Completed(outcome),
            ) => self.end_unload(script_id, session_id, purpose, Seq::empty(), outcome),
            (PendingModel::Detach { session_id, record }, AnswerView::Completed(outcome)) =>
                self.detach_called(session_id, record, outcome),
            (
                PendingModel::DetachProbe { session_id, record, failure },
                AnswerView::Detached(detached),
            ) => self.detach_probed(session_id, record, failure, detached),
            (PendingModel::PollScan { queue, found }, AnswerView::Detached(detached)) =>
                self.poll_scanned(queue, found, detached),
            (
                PendingModel::PostProbe { script_id, encoded, data },
                AnswerView::Detached(detached),
            ) => self.post_probed(script_id, encoded, data, detached),
            (PendingModel::Post, AnswerView::Completed(outcome)) => self.finish(
                Seq::empty(),
                verdict_reply(outcome),
            ),
            (PendingModel::Passthrough, AnswerView::Completed(outcome)) => self.finish(
                Seq::empty(),
                verdict_reply(outcome),
            ),
            (PendingModel::Spawn, AnswerView::Spawned(outcome)) => self.spawned(outcome),
            _ => (self, plain_reply(ReplyView::Polled)),
        }
    }
}

/// An operation with its arguments.
pub enum OperationModel {
    Version,
    ListDevices,
    ListProcesses { device_id: Seq<char> },
    Attach { device_id: Seq<char>, pid: u32 },
    Detach { session_id: u64 },
    Spawn { device_id: Seq<char>, program: Seq<char>, argv: Option<Seq<Seq<char>>> },
    Resume { device_id: Seq<char>, pid: u32 },
    Kill { device_id: Seq<char>, pid: u32 },
    LoadDefaultScript { session_id: u64 },
    UnloadScript { script_id: u64 },
    /// `encoded` is what the JSON encoder made of the message.
    ScriptPost { script_id: u64, encoded: Result<Seq<char>, Seq<char>>, data: Option<Seq<u8>> },
    /// A health poll that asks about the sessions in this order.
    Poll { order: Seq<u64> },
}

impl ContextModel {
    /// The first step of `operation` at time `now`.
    pub open spec fn begin(self, operation: OperationModel, now: u64) -> Move {
        match operation {
            OperationModel::Version => self.version(),
            OperationModel::ListDevices => self.list_devices(),
            OperationModel::ListProcesses { device_id } => self.list_processes(device_id, now),
            OperationModel::Attach { device_id, pid } => self.attach(device_id, pid),
            OperationModel::Detach { session_id } => self.detach(session_id),
            OperationModel::Spawn { device_id, program, argv } => self.spawn(
                device_id,
                program,
                argv,
            ),
            OperationModel::Resume { device_id, pid } => self.resume(device_id, pid),
            OperationModel::Kill { device_id, pid } => self.kill(device_id, pid),
            OperationModel::LoadDefaultScript { session_id } => self.load_default_script(
                session_id,
            ),
            OperationModel::UnloadScript { script_id } => self.unload_script(script_id),
            OperationModel::ScriptPost { script_id, encoded, data } => self.script_post(
                script_id,
                encoded,
                data,
            ),
            OperationModel::Poll { order } => self.poll_detached_sessions(order),
        }
    }

    /// What the query under way takes for granted of the registry.
    pub open spec fn pending_fits(self) -> bool {
        match self.pending {
            PendingModel::LoadProbe { session_id, origin } => origin is Attach
                ==> self.registry.scripts_of(session_id).len() == 0,
            PendingModel::LoadCreate { session_id, script_id, origin }
            | PendingModel::LoadSubscribe { session_id, script_id, origin }
            | PendingModel::LoadStart { session_id, script_id, origin } => {
                &&& origin is Attach ==> self.registry.scripts_of(session_id).len() == 0
                &&& 1 <= script_id < self.registry.next_script_id
                &&& !self.registry.scripts.contains_key(script_id)
            },
            PendingModel::Detach { session_id, record }
            | PendingModel::DetachProbe { session_id, record, .. } => {
                &&& !self.registry.sessions.contains_key(session_id)
                &&& 1 <= session_id < self.registry.next_session_id
                &&& record.script_ids.len() == 0
            },
            _ => true,
        }
    }

    /// What holds of the actor between any two steps: the registry is
    /// consistent, and the query under way fits it.
    pub open spec fn coherent(self) -> bool {
        self.registry.consistent() && self.pending_fits()
    }
}

/// The move that `answers` lead to from `start`: each answer is delivered
/// to the query that the step before asked, until a step ends in a reply,
/// an answer is not of the kind that is due, or the answers run out. The
/// effects of all steps are collected in order.
pub open spec fn follow(start: Move, answers: Seq<AnswerView>, now: u64) -> Move
    decreases answers.len(),
{
    if answers.len() == 0 || !(start.1.next is Ask) || !start.0.expects(answers[0]) {
        start
    } else {
        let (state, step) = start.0.deliver(answers[0], now);
        follow(
            (state, StepView { effects: start.1.effects + step.effects, next: step.next }),
            answers.drop_first(),
            now,
        )
    }
}

/// What the poller clears does not depend on the query that was under way.
pub proof fn lemma_sweep_ignores_pending(
    state: ContextModel,
    pending: PendingModel,
    queue: Seq<u64>,
    effects: Seq<EffectView>,
)
    ensures
        state.with_pending(pending).sweep(queue, effects) == state.sweep(queue, effects),
    decreases queue.len(),
{
    if queue.len() > 0 && state.registry.scripts_of(queue[0]).len() == 0 {
        let registry = state.registry.remove_session(queue[0]);
        lemma_sweep_ignores_pending(
            state.with_registry(registry),
            pending,
            queue.drop_first(),
            effects + swept_effects(queue[0]),
        );
        assert(state.with_pending(pending).with_registry(registry) == state.with_registry(
            registry,
        ).with_pending(pending));
    }
}

/// What the host does when a requested detach has gone through: the
/// subscriber is told, then the handles are given up.
pub open spec fn detached_effects(session_id: u64, reason: DetachReason) -> Seq<EffectView> {
    seq![
        EffectView::Emit(NoticeView::SessionDetached { session_id, reason }),
        EffectView::ReleaseSession { session_id },
    ]
}

/// What the host does for a session that the poller clears: the handles
/// are given up, then the subscriber is told.
pub open spec fn swept_effects(session_id: u64) -> Seq<EffectView> {
    seq![
        EffectView::ReleaseSession { session_id },
        EffectView::Emit(
            NoticeView::SessionDetached { session_id, reason: DetachReason::Disposed },
        ),
    ]
}

} // verus!
