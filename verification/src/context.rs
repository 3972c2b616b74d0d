//! The executable actor state: registry, process cache, agent source and
//! the query that is under way.

use crate::agent::{agent_verdict, check_agent, verdict_view};
use crate::error::{HandleKind, ServiceError, ServiceErrorView};
use crate::json::{encode_message, json_text};
use crate::laws::{
    law_begin_keeps_registry_consistent, law_busy_until_the_reply,
    law_deliver_keeps_registry_consistent, law_idle_exactly_after_a_reply,
    law_the_query_tells_the_kind_of_answer, told_by_query,
};
use crate::model::{
    detached_effects, lemma_sweep_ignores_pending, nul_in, plain_reply, swept_effects,
    verdict_reply, CacheModel, ContextModel, LoadOrigin, OperationModel, PendingModel,
    PurposeModel, PROCESS_CACHE_TTL_MS,
};
use crate::protocol::{
    listing_view, outcome_view, Answer, AnswerView, DetachReason, Effect, EffectView, Next, Notice,
    Query, Reply, ReplyView, Step,
};
use crate::registry::{Registry, SessionRecord};
use crate::types::{clone_processes, text_result_view, ProcessInfo, ScriptInfo, SessionInfo};
use crate::validation::{
    argv_label_text, contains_nul, find_nul_arg, has_nul, same_text, some_nul_arg,
};
use vstd::prelude::*;
use vstd::string::*;

verus! {

/// The last enumerated process list with the device it belongs to and the
/// time it was fetched, in milliseconds of the host's monotonic clock.
struct CachedProcessList {
    device_id: String,
    fetched_at: u64,
    processes: Vec<ProcessInfo>,
}

impl View for CachedProcessList {
    type V = CacheModel;

    closed spec fn view(&self) -> CacheModel {
        CacheModel {
            device_id: self.device_id@,
            fetched_at: self.fetched_at,
            processes: self.processes.deep_view(),
        }
    }
}

/// Why a script is being unloaded.
enum Purpose {
    Single,
    Detach,
    Sweep { queue: Vec<u64> },
}

impl View for Purpose {
    type V = PurposeModel;

    closed spec fn view(&self) -> PurposeModel {
        match *self {
            Purpose::Single => PurposeModel::Single,
            Purpose::Detach => PurposeModel::Detach,
            Purpose::Sweep { queue } => PurposeModel::Sweep { queue: queue@ },
        }
    }
}

/// What the actor waits for.
enum Pending {
    Idle,
    Version,
    ListDevices,
    ListProcesses { device_id: String },
    Attach { device_id: String, pid: u32 },
    LoadProbe { session_id: u64, origin: LoadOrigin },
    LoadCreate { session_id: u64, script_id: u64, origin: LoadOrigin },
    LoadSubscribe { session_id: u64, script_id: u64, origin: LoadOrigin },
    LoadStart { session_id: u64, script_id: u64, origin: LoadOrigin },
    UnloadProbe { script_id: u64, session_id: u64, purpose: Purpose },
    UnloadCall { script_id: u64, session_id: u64, purpose: Purpose },
    Detach { session_id: u64, record: SessionRecord },
    DetachProbe { session_id: u64, record: SessionRecord, failure: String },
    PollScan { queue: Vec<u64>, found: Vec<u64> },
    PostProbe { script_id: u64, encoded: Result<String, String>, data: Option<Vec<u8>> },
    Post,
    Spawn,
    Passthrough,
}

impl View for Pending {
    type V = PendingModel;

    closed spec fn view(&self) -> PendingModel {
        match *self {
            Pending::Idle => PendingModel::Idle,
            Pending::Version => PendingModel::Version,
            Pending::ListDevices => PendingModel::ListDevices,
            Pending::ListProcesses { device_id } => PendingModel::ListProcesses {
                device_id: device_id@,
            },
            Pending::Attach { device_id, pid } => PendingModel::Attach {
                device_id: device_id@,
                pid,
            },
            Pending::LoadProbe { session_id, origin } => PendingModel::LoadProbe {
                session_id,
                origin,
            },
            Pending::LoadCreate { session_id, script_id, origin } => PendingModel::LoadCreate {
                session_id,
                script_id,
                origin,
            },
            Pending::LoadSubscribe { session_id, script_id, origin } =>
                PendingModel::LoadSubscribe { session_id, script_id, origin },
            Pending::LoadStart { session_id, script_id, origin } => PendingModel::LoadStart {
                session_id,
                script_id,
                origin,
            },
            Pending::UnloadProbe { script_id, session_id, purpose } => PendingModel::UnloadProbe {
                script_id,
                session_id,
                purpose: purpose@,
            },
            Pending::UnloadCall { script_id, session_id, purpose } => PendingModel::UnloadCall {
                script_id,
                session_id,
                purpose: purpose@,
            },
            Pending::Detach { session_id, record } => PendingModel::Detach {
                session_id,
                record: record@,
            },
            Pending::DetachProbe { session_id, record, failure } => PendingModel::DetachProbe {
                session_id,
                record: record@,
                failure: failure@,
            },
            Pending::PollScan { queue, found } => PendingModel::PollScan {
                queue: queue@,
                found: found@,
            },
            Pending::PostProbe { script_id, encoded, data } => PendingModel::PostProbe {
                script_id,
                encoded: text_result_view(encoded),
                data: data.deep_view(),
            },
            Pending::Post => PendingModel::Post,
            Pending::Spawn => PendingModel::Spawn,
            Pending::Passthrough => PendingModel::Passthrough,
        }
    }
}

/// The mathematical value of the process cache.
spec fn cache_view(cache: Option<CachedProcessList>) -> Option<CacheModel> {
    match cache {
        Some(list) => Some(list@),
        None => None,
    }
}

/// The state of the instrumentation actor. It holds no toolkit handle: the
/// host keeps those, filed under the ids that this state hands out.
pub struct FridaContext {
    registry: Registry,
    cache: Option<CachedProcessList>,
    agent: Result<String, ServiceError>,
    pending: Pending,
}

impl View for FridaContext {
    type V = ContextModel;

    closed spec fn view(&self) -> ContextModel {
        ContextModel {
            registry: self.registry@,
            cache: cache_view(self.cache),
            agent: verdict_view(self.agent),
            pending: self.pending@,
        }
    }
}

/// What the laws say of the first step of every operation.
proof fn lemma_first_step(state: ContextModel, operation: OperationModel, now: u64)
    requires
        state.coherent(),
    ensures
        state.begin(operation, now).0.coherent(),
        state.begin(operation, now).0.idle() <==> state.begin(operation, now).1.next is Reply,
        forall|answer: AnswerView| #[trigger]
            told_by_query(state.begin(operation, now).0, state.begin(operation, now).1, answer),
{
    law_begin_keeps_registry_consistent(state, operation, now);
    law_idle_exactly_after_a_reply(state, operation, now);
    assert forall|answer: AnswerView| #[trigger]
        told_by_query(state.begin(operation, now).0, state.begin(operation, now).1, answer) by {
        law_the_query_tells_the_kind_of_answer(state, operation, answer, now, answer);
    }
}

/// The effects of a requested detach that has gone through.
fn effects_of_detach(session_id: u64, reason: DetachReason) -> (effects: Vec<Effect>)
    ensures
        effects.deep_view() == detached_effects(session_id, reason),
{
    let effects = and_then(
        no_effects(),
        Effect::Emit(Notice::SessionDetached { session_id, reason }),
    );
    let effects = and_then(effects, Effect::ReleaseSession { session_id });
    assert(effects.deep_view() =~= detached_effects(session_id, reason));
    effects
}

/// The failure for a string argument called `label` that holds a NUL.
fn nul_error(label: &str) -> (error: ServiceError)
    ensures
        error@ == nul_in(label@),
{
    ServiceError::InputValidation { label: String::from_str(label) }
}

/// The one effect of giving up a script.
fn release_of(script_id: u64) -> (effects: Vec<Effect>)
    ensures
        effects.deep_view() == seq![EffectView::ReleaseScript { script_id }],
{
    let effects = and_then(no_effects(), Effect::ReleaseScript { script_id });
    assert(effects.deep_view() =~= seq![EffectView::ReleaseScript { script_id }]);
    effects
}

/// No effects.
fn no_effects() -> (effects: Vec<Effect>)
    ensures
        effects.deep_view() == Seq::<EffectView>::empty(),
{
    let effects: Vec<Effect> = Vec::new();
    assert(effects.deep_view() =~= Seq::<EffectView>::empty());
    effects
}

/// `effects` followed by `effect`.
fn and_then(effects: Vec<Effect>, effect: Effect) -> (longer: Vec<Effect>)
    ensures
        longer.deep_view() == effects.deep_view().push(effect@),
{
    let mut longer = effects;
    longer.push(effect);
    assert(longer.deep_view() =~= effects.deep_view().push(effect@));
    longer
}

impl FridaContext {
    /// The actor before its first operation. `bundle` is the agent script
    /// as decoded text, or the decoder's complaint.
    pub fn new(bundle: Result<String, String>) -> (context: FridaContext)
        ensures
            context@ == ContextModel::start(agent_verdict(text_result_view(bundle))),
            context@.idle(),
            context@.coherent(),
    {
        FridaContext::starting_at(bundle, 1, 1)
    }

    /// An actor whose first session and first script get the given ids.
    /// Ids count up from there; once a counter has reached the largest
    /// number, nothing more is handed out.
    pub fn starting_at(
        bundle: Result<String, String>,
        first_session_id: u64,
        first_script_id: u64,
    ) -> (context: FridaContext)
        requires
            first_session_id >= 1,
            first_script_id >= 1,
        ensures
            context@ == ContextModel::start_at(
                agent_verdict(text_result_view(bundle)),
                first_session_id,
                first_script_id,
            ),
            context@.idle(),
            context@.coherent(),
    {
        FridaContext {
            registry: Registry::starting_at(first_session_id, first_script_id),
            cache: None,
            agent: check_agent(bundle),
            pending: Pending::Idle,
        }
    }

    /// Whether the next operation may start.
    pub fn is_idle(&self) -> (idle: bool)
        ensures
            idle == self@.idle(),
    {
        match self.pending {
            Pending::Idle => true,
            _ => false,
        }
    }

    /// The registry of sessions and scripts, for inspection.
    pub fn registry(&self) -> (registry: &Registry)
        ensures
            registry@ == self@.registry,
    {
        &self.registry
    }

    /// Ends the operation with `reply`.
    fn finish(&mut self, effects: Vec<Effect>, reply: Reply) -> (step: Step)
        ensures
            (final(self)@, step@) == old(self)@.finish(effects.deep_view(), reply@),
    {
        self.pending = Pending::Idle;
        Step { effects, next: Next::Reply(reply) }
    }

    /// Asks the toolkit and remembers what the answer is for.
    fn ask(&mut self, pending: Pending, effects: Vec<Effect>, query: Query) -> (step: Step)
        ensures
            (final(self)@, step@) == old(self)@.ask(pending@, effects.deep_view(), query@),
    {
        self.pending = pending;
        Step { effects, next: Next::Ask(query) }
    }

    /// Starts `version`: the toolkit is asked for its version string.
    pub fn version(&mut self) -> (step: Step)
        requires
            old(self)@.idle(),
            old(self)@.coherent(),
        ensures
            (final(self)@, step@) == old(self)@.version(),
            final(self)@.coherent(),
            final(self)@.idle() <==> step@.next is Reply,
            forall|answer: AnswerView| #[trigger] told_by_query(final(self)@, step@, answer),
    {
        proof {
            lemma_first_step(self@, OperationModel::Version, 0);
        }
        self.ask(Pending::Version, no_effects(), Query::Version)
    }

    /// Starts `list_devices`: the toolkit is asked for its devices.
    pub fn list_devices(&mut self) -> (step: Step)
        requires
            old(self)@.idle(),
            old(self)@.coherent(),
        ensures
            (final(self)@, step@) == old(self)@.list_devices(),
            final(self)@.coherent(),
            final(self)@.idle() <==> step@.next is Reply,
            forall|answer: AnswerView| #[trigger] told_by_query(final(self)@, step@, answer),
    {
        proof {
            lemma_first_step(self@, OperationModel::ListDevices, 0);
        }
        self.ask(Pending::ListDevices, no_effects(), Query::EnumerateDevices)
    }

    /// The cached process list, copied, if it answers a request for
    /// `device_id` at time `now`.
    fn cached_processes(&self, device_id: &str, now: u64) -> (hit: Option<Vec<ProcessInfo>>)
        ensures
            match hit {
                Some(list) => self@.cache is Some && self@.cache->0.serves(device_id@, now)
                    && list.deep_view() == self@.cache->0.processes,
                None => !(self@.cache is Some && self@.cache->0.serves(device_id@, now)),
            },
    {
        match &self.cache {
            Some(cache) => {
                if same_text(cache.device_id.as_str(), device_id) && (now < cache.fetched_at || now
                    - cache.fetched_at < PROCESS_CACHE_TTL_MS) {
                    Some(clone_processes(&cache.processes))
                } else {
                    None
                }
            },
            None => None,
        }
    }

    /// Starts `list_processes` at time `now`. A device id with a NUL and
    /// the device class `socket` are refused; a cached list for the same
    /// device that is younger than the time to live is the reply; else the
    /// toolkit is asked to enumerate.
    pub fn list_processes(&mut self, device_id: &str, now: u64) -> (step: Step)
        requires
            old(self)@.idle(),
            old(self)@.coherent(),
        ensures
            (final(self)@, step@) == old(self)@.list_processes(device_id@, now),
            final(self)@.coherent(),
            final(self)@.idle() <==> step@.next is Reply,
            forall|answer: AnswerView| #[trigger] told_by_query(final(self)@, step@, answer),
            has_nul(device_id@) ==> step@ == plain_reply(
                ReplyView::Processes(Err(nul_in("device_id"@))),
            ) && final(self)@.registry == old(self)@.registry,
    {
        proof {
            lemma_first_step(self@, OperationModel::ListProcesses { device_id: device_id@ }, now);
        }
        if contains_nul(device_id) {
            return self.finish(no_effects(), Reply::Processes(Err(nul_error("device_id"))));
        }
        if same_text(device_id, "socket") {
            return self.finish(
                no_effects(),
                Reply::Processes(Err(ServiceError::UnsupportedDevice)),
            );
        }
        match self.cached_processes(device_id, now) {
            Some(list) => self.finish(no_effects(), Reply::Processes(Ok(list))),
            None => self.ask(
                Pending::ListProcesses { device_id: String::from_str(device_id) },
                no_effects(),
                Query::EnumerateProcesses { device_id: String::from_str(device_id) },
            ),
        }
    }

    /// The toolkit has enumerated: a list replaces the cache, stamped `now`.
    fn processes_listed(
        &mut self,
        device_id: String,
        outcome: Result<Vec<ProcessInfo>, String>,
        now: u64,
    ) -> (step: Step)
        ensures
            (final(self)@, step@) == old(self)@.processes_listed(
                device_id@,
                listing_view(outcome),
                now,
            ),
    {
        match outcome {
            Err(message) => self.finish(
                no_effects(),
                Reply::Processes(Err(ServiceError::DeviceError { message })),
            ),
            Ok(processes) => {
                let copy = clone_processes(&processes);
                self.cache = Some(
                    CachedProcessList { device_id, fetched_at: now, processes: copy },
                );
                self.finish(no_effects(), Reply::Processes(Ok(processes)))
            },
        }
    }

    /// Starts `attach`. A device id with a NUL is refused, and so is the
    /// request when the session counter is used up; else the toolkit is
    /// asked to attach, keeping the handles under the next session id.
    pub fn attach(&mut self, device_id: &str, pid: u32) -> (step: Step)
        requires
            old(self)@.idle(),
            old(self)@.coherent(),
        ensures
            (final(self)@, step@) == old(self)@.attach(device_id@, pid),
            final(self)@.coherent(),
            final(self)@.idle() <==> step@.next is Reply,
            forall|answer: AnswerView| #[trigger] told_by_query(final(self)@, step@, answer),
            has_nul(device_id@) ==> step@ == plain_reply(
                ReplyView::Attached(Err(nul_in("device_id"@))),
            ) && final(self)@.registry == old(self)@.registry,
    {
        proof {
            lemma_first_step(self@, OperationModel::Attach { device_id: device_id@, pid }, 0);
        }
        if contains_nul(device_id) {
            return self.finish(no_effects(), Reply::Attached(Err(nul_error("device_id"))));
        }
        let session_id = self.registry.next_session_id();
        if session_id == u64::MAX {
            return self.finish(no_effects(), Reply::Attached(Err(ServiceError::IdsExhausted)));
        }
        self.ask(
            Pending::Attach { device_id: String::from_str(device_id), pid },
            no_effects(),
            Query::Attach { device_id: String::from_str(device_id), pid, session_id },
        )
    }

    /// The toolkit has attached: the session is registered and the agent is
    /// loaded into it at once.
    fn attached(&mut self, device_id: String, pid: u32, outcome: Result<(), String>) -> (step: Step)
        ensures
            (final(self)@, step@) == old(self)@.attached(device_id@, pid, outcome_view(outcome)),
    {
        match outcome {
            Err(message) => self.finish(
                no_effects(),
                Reply::Attached(Err(ServiceError::DeviceError { message })),
            ),
            Ok(()) => {
                let session_id = self.registry.next_session_id();
                if session_id == u64::MAX {
                    let effects = and_then(no_effects(), Effect::ReleaseSession { session_id });
                    assert(effects.deep_view() =~= seq![EffectView::ReleaseSession { session_id }]);
                    self.finish(effects, Reply::Attached(Err(ServiceError::IdsExhausted)))
                } else {
                    let session_id = self.registry.open_session(device_id, pid);
                    self.begin_load(session_id, LoadOrigin::Attach)
                }
            },
        }
    }

    /// Starts `load_default_script`. Fails at once when the agent bundle
    /// cannot be used or the session is unknown; else the toolkit is asked
    /// whether the session is still attached.
    pub fn load_default_script(&mut self, session_id: u64) -> (step: Step)
        requires
            old(self)@.idle(),
            old(self)@.coherent(),
        ensures
            (final(self)@, step@) == old(self)@.load_default_script(session_id),
            final(self)@.coherent(),
            final(self)@.idle() <==> step@.next is Reply,
            forall|answer: AnswerView| #[trigger] told_by_query(final(self)@, step@, answer),
    {
        proof {
            lemma_first_step(self@, OperationModel::LoadDefaultScript { session_id }, 0);
        }
        self.begin_load(session_id, LoadOrigin::Direct)
    }

    /// Loading starts.
    fn begin_load(&mut self, session_id: u64, origin: LoadOrigin) -> (step: Step)
        ensures
            (final(self)@, step@) == old(self)@.begin_load(session_id, origin),
    {
        let fault = match &self.agent {
            Err(fault) => Some(fault.clone()),
            Ok(_) => None,
        };
        match fault {
            Some(fault) => self.fail_load(session_id, origin, no_effects(), fault),
            None => {
                if !self.registry.has_session(session_id) {
                    self.fail_load(
                        session_id,
                        origin,
                        no_effects(),
                        ServiceError::UnknownHandle(HandleKind::Session),
                    )
                } else {
                    self.ask(
                        Pending::LoadProbe { session_id, origin },
                        no_effects(),
                        Query::IsDetached { session_id },
                    )
                }
            },
        }
    }

    /// Loading fails with `error`; `attach` takes its new session back.
    fn fail_load(
        &mut self,
        session_id: u64,
        origin: LoadOrigin,
        effects: Vec<Effect>,
        error: ServiceError,
    ) -> (step: Step)
        ensures
            (final(self)@, step@) == old(self)@.fail_load(
                session_id,
                origin,
                effects.deep_view(),
                error@,
            ),
    {
        match origin {
            LoadOrigin::Direct => self.finish(effects, Reply::ScriptLoaded(Err(error))),
            LoadOrigin::Attach => {
                let _ = self.registry.remove_session(session_id);
                self.finish(
                    and_then(effects, Effect::ReleaseSession { session_id }),
                    Reply::Attached(Err(error)),
                )
            },
        }
    }

    /// The session's state is known.
    fn load_probed(&mut self, session_id: u64, origin: LoadOrigin, detached: bool) -> (step: Step)
        ensures
            (final(self)@, step@) == old(self)@.load_probed(session_id, origin, detached),
    {
        if detached {
            return self.fail_load(session_id, origin, no_effects(), ServiceError::SessionDetached);
        }
        if self.registry.next_script_id() == u64::MAX {
            return self.fail_load(session_id, origin, no_effects(), ServiceError::IdsExhausted);
        }
        let agent = match &self.agent {
            Err(fault) => Err(fault.clone()),
            Ok(source) => Ok(source.clone()),
        };
        match agent {
            Err(fault) => self.fail_load(session_id, origin, no_effects(), fault),
            Ok(source) => {
                let script_id = self.registry.reserve_script_id();
                self.ask(
                    Pending::LoadCreate { session_id, script_id, origin },
                    no_effects(),
                    Query::CreateScript {
                        session_id,
                        script_id,
                        name: String::from_str("carf-agent"),
                        source,
                    },
                )
            },
        }
    }

    /// The script exists: its messages are routed next.
    fn load_created(
        &mut self,
        session_id: u64,
        script_id: u64,
        origin: LoadOrigin,
        outcome: Result<(), String>,
    ) -> (step: Step)
        ensures
            (final(self)@, step@) == old(self)@.load_created(
                session_id,
                script_id,
                origin,
                outcome_view(outcome),
            ),
    {
        match outcome {
            Err(message) => self.fail_load(
                session_id,
                origin,
                no_effects(),
                ServiceError::DeviceError { message },
            ),
            Ok(()) => self.ask(
                Pending::LoadSubscribe { session_id, script_id, origin },
                no_effects(),
                Query::SubscribeMessages { session_id, script_id },
            ),
        }
    }

    /// The messages are routed: the script is loaded next.
    fn load_subscribed(
        &mut self,
        session_id: u64,
        script_id: u64,
        origin: LoadOrigin,
        outcome: Result<(), String>,
    ) -> (step: Step)
        ensures
            (final(self)@, step@) == old(self)@.load_subscribed(
                session_id,
                script_id,
                origin,
                outcome_view(outcome),
            ),
    {
        match outcome {
            Err(message) => self.fail_load(
                session_id,
                origin,
                release_of(script_id),
                ServiceError::DeviceError { message },
            ),
            Ok(()) => self.ask(
                Pending::LoadStart { session_id, script_id, origin },
                no_effects(),
                Query::LoadScript { script_id },
            ),
        }
    }

    /// The script runs: only now is it registered.
    fn load_started(
        &mut self,
        session_id: u64,
        script_id: u64,
        origin: LoadOrigin,
        outcome: Result<(), String>,
    ) -> (step: Step)
        ensures
            (final(self)@, step@) == old(self)@.load_started(
                session_id,
                script_id,
                origin,
                outcome_view(outcome),
            ),
    {
        match outcome {
            Err(message) => self.fail_load(
                session_id,
                origin,
                release_of(script_id),
                ServiceError::DeviceError { message },
            ),
            Ok(()) => {
                match self.registry.target_of(session_id) {
                    None => {
                        let effects = release_of(script_id);
                        self.fail_load(
                            session_id,
                            origin,
                            effects,
                            ServiceError::UnknownHandle(HandleKind::Session),
                        )
                    },
                    Some((device_id, pid)) => {
                        self.registry.add_script(session_id, script_id);
                        match origin {
                            LoadOrigin::Direct => self.finish(
                                no_effects(),
                                Reply::ScriptLoaded(Ok(ScriptInfo { script_id })),
                            ),
                            LoadOrigin::Attach => {
                                let notice = Notice::SessionAttached {
                                    session_id,
                                    script_id,
                                    device_id,
                                    pid,
                                };
                                let effects = and_then(no_effects(), Effect::Emit(notice));
                                assert(effects.deep_view() =~= seq![EffectView::Emit(notice@)]);
                                self.finish(
                                    effects,
                                    Reply::Attached(Ok(SessionInfo { session_id, script_id })),
                                )
                            },
                        }
                    },
                }
            },
        }
    }

    /// Starts `unload_script`. An unknown id is refused; else the script
    /// leaves the registry and the toolkit is asked whether its session is
    /// still attached.
    pub fn unload_script(&mut self, script_id: u64) -> (step: Step)
        requires
            old(self)@.idle(),
            old(self)@.coherent(),
        ensures
            (final(self)@, step@) == old(self)@.unload_script(script_id),
            final(self)@.coherent(),
            final(self)@.idle() <==> step@.next is Reply,
            forall|answer: AnswerView| #[trigger] told_by_query(final(self)@, step@, answer),
            !old(self)@.registry.scripts.contains_key(script_id) ==> {
                &&& step@ == plain_reply(
                    ReplyView::Unit(Err(ServiceErrorView::UnknownHandle(HandleKind::Script))),
                )
                &&& final(self)@.registry == old(self)@.registry
            },
    {
        proof {
            lemma_first_step(self@, OperationModel::UnloadScript { script_id }, 0);
        }
        match self.registry.remove_script(script_id) {
            None => self.finish(
                no_effects(),
                Reply::Unit(Err(ServiceError::UnknownHandle(HandleKind::Script))),
            ),
            Some(session_id) => {
                if self.registry.has_session(session_id) {
                    self.ask(
                        Pending::UnloadProbe { script_id, session_id, purpose: Purpose::Single },
                        no_effects(),
                        Query::IsDetached { session_id },
                    )
                } else {
                    self.finish(release_of(script_id), Reply::Unit(Ok(())))
                }
            },
        }
    }

    /// A teardown unloads `script_id`, the oldest script of `session_id`.
    fn unload_oldest(
        &mut self,
        session_id: u64,
        script_id: u64,
        purpose: Purpose,
        effects: Vec<Effect>,
    ) -> (step: Step)
        requires
            old(self)@.registry.scripts_of(session_id).len() > 0,
            script_id == old(self)@.registry.scripts_of(session_id)[0],
        ensures
            (final(self)@, step@) == old(self)@.unload_oldest(
                session_id,
                purpose@,
                effects.deep_view(),
            ),
    {
        let _ = self.registry.remove_script(script_id);
        self.ask(
            Pending::UnloadProbe { script_id, session_id, purpose },
            effects,
            Query::IsDetached { session_id },
        )
    }

    /// The owner's state is known: only an attached session is asked to
    /// unload.
    fn unload_probed(
        &mut self,
        script_id: u64,
        session_id: u64,
        purpose: Purpose,
        detached: bool,
    ) -> (step: Step)
        ensures
            (final(self)@, step@) == old(self)@.unload_probed(
                script_id,
                session_id,
                purpose@,
                detached,
            ),
    {
        if detached {
            self.end_unload(script_id, session_id, purpose, no_effects(), Ok(()))
        } else {
            self.ask(
                Pending::UnloadCall { script_id, session_id, purpose },
                no_effects(),
                Query::UnloadScript { script_id },
            )
        }
    }

    /// The unloading is over: the script's handle is given up, and the
    /// work that asked for the unloading goes on.
    fn end_unload(
        &mut self,
        script_id: u64,
        session_id: u64,
        purpose: Purpose,
        effects: Vec<Effect>,
        outcome: Result<(), String>,
    ) -> (step: Step)
        ensures
            (final(self)@, step@) == old(self)@.end_unload(
                script_id,
                session_id,
                purpose@,
                effects.deep_view(),
                outcome_view(outcome),
            ),
    {
        let effects = and_then(effects, Effect::ReleaseScript { script_id });
        match purpose {
            Purpose::Single => {
                let reply = match outcome {
                    Ok(()) => Reply::Unit(Ok(())),
                    Err(message) => Reply::Unit(Err(ServiceError::DeviceError { message })),
                };
                self.finish(effects, reply)
            },
            Purpose::Detach => self.teardown(session_id, effects),
            Purpose::Sweep { queue } => self.sweep(queue, effects),
        }
    }

    /// Starts `detach`. An unknown id is refused and nothing changes; else
    /// the scripts of the session are unloaded, oldest first, before the
    /// toolkit is asked to detach.
    pub fn detach(&mut self, session_id: u64) -> (step: Step)
        requires
            old(self)@.idle(),
            old(self)@.coherent(),
        ensures
            (final(self)@, step@) == old(self)@.detach(session_id),
            final(self)@.coherent(),
            final(self)@.idle() <==> step@.next is Reply,
            forall|answer: AnswerView| #[trigger] told_by_query(final(self)@, step@, answer),
            !old(self)@.registry.sessions.contains_key(session_id) ==> {
                &&& step@ == plain_reply(
                    ReplyView::Unit(Err(ServiceErrorView::UnknownHandle(HandleKind::Session))),
                )
                &&& final(self)@.registry == old(self)@.registry
                &&& final(self)@.cache == old(self)@.cache
            },
    {
        proof {
            lemma_first_step(self@, OperationModel::Detach { session_id }, 0);
        }
        self.teardown(session_id, no_effects())
    }

    /// One round of a requested detach.
    fn teardown(&mut self, session_id: u64, effects: Vec<Effect>) -> (step: Step)
        ensures
            (final(self)@, step@) == old(self)@.teardown(session_id, effects.deep_view()),
    {
        match self.registry.first_script(session_id) {
            Some(script_id) => self.unload_oldest(session_id, script_id, Purpose::Detach, effects),
            None => match self.registry.remove_session(session_id) {
                None => {
                    assert(self.registry@.sessions =~= old(self).registry@.sessions);
                    self.finish(
                        effects,
                        Reply::Unit(Err(ServiceError::UnknownHandle(HandleKind::Session))),
                    )
                },
                Some(record) => self.ask(
                    Pending::Detach { session_id, record },
                    effects,
                    Query::DetachSession { session_id },
                ),
            },
        }
    }

    /// The toolkit has answered the detach request.
    fn detach_called(
        &mut self,
        session_id: u64,
        record: SessionRecord,
        outcome: Result<(), String>,
    ) -> (step: Step)
        ensures
            (final(self)@, step@) == old(self)@.detach_called(
                session_id,
                record@,
                outcome_view(outcome),
            ),
    {
        match outcome {
            Ok(()) => self.finish(
                effects_of_detach(session_id, DetachReason::User),
                Reply::Unit(Ok(())),
            ),
            Err(failure) => self.ask(
                Pending::DetachProbe { session_id, record, failure },
                no_effects(),
                Query::IsDetached { session_id },
            ),
        }
    }

    /// Detaching had failed: a session that was gone already counts as
    /// detached; any other comes back and the failure is reported.
    fn detach_probed(
        &mut self,
        session_id: u64,
        record: SessionRecord,
        failure: String,
        detached: bool,
    ) -> (step: Step)
        ensures
            (final(self)@, step@) == old(self)@.detach_probed(
                session_id,
                record@,
                failure@,
                detached,
            ),
    {
        if detached {
            self.finish(effects_of_detach(session_id, DetachReason::Disposed), Reply::Unit(Ok(())))
        } else {
            self.registry.restore_session(session_id, record);
            self.finish(
                no_effects(),
                Reply::Unit(Err(ServiceError::DeviceError { message: failure })),
            )
        }
    }

    /// Starts a health poll: the toolkit is asked about every registered
    /// session, in some order; the detached ones are cleared afterwards.
    pub fn poll_detached_sessions(&mut self) -> (step: Step)
        requires
            old(self)@.idle(),
            old(self)@.coherent(),
        ensures
            exists|order: Seq<u64>|
                {
                    &&& order.no_duplicates()
                    &&& order.to_set() == old(self)@.registry.sessions.dom()
                    &&& (final(self)@, step@) == old(self)@.poll_detached_sessions(order)
                },
            final(self)@.coherent(),
            final(self)@.idle() <==> step@.next is Reply,
            forall|answer: AnswerView| #[trigger] told_by_query(final(self)@, step@, answer),
    {
        proof {
            assert forall|order: Seq<u64>| #[trigger]
                self@.poll_detached_sessions(order).0.coherent() by {
                lemma_first_step(self@, OperationModel::Poll { order }, 0);
            }
            assert forall|order: Seq<u64>, answer: AnswerView| #[trigger]
                told_by_query(
                    self@.poll_detached_sessions(order).0,
                    self@.poll_detached_sessions(order).1,
                    answer,
                ) by {
                lemma_first_step(self@, OperationModel::Poll { order }, 0);
            }
        }
        let order = self.registry.session_ids();
        self.scan(order, Vec::new())
    }

    /// The poller asks about the next session, or clears those found.
    fn scan(&mut self, queue: Vec<u64>, found: Vec<u64>) -> (step: Step)
        ensures
            (final(self)@, step@) == old(self)@.scan(queue@, found@),
    {
        if queue.len() > 0 {
            let session_id = queue[0];
            self.ask(
                Pending::PollScan { queue, found },
                no_effects(),
                Query::IsDetached { session_id },
            )
        } else {
            self.sweep(found, no_effects())
        }
    }

    /// The toolkit has told whether the first session of `queue` is
    /// detached.
    fn poll_scanned(&mut self, queue: Vec<u64>, found: Vec<u64>, detached: bool) -> (step: Step)
        ensures
            (final(self)@, step@) == old(self)@.poll_scanned(queue@, found@, detached),
    {
        if queue.len() == 0 {
            return self.sweep(found, no_effects());
        }
        let mut queue = queue;
        let mut found = found;
        let first = queue.remove(0);
        if detached {
            found.push(first);
        }
        self.scan(queue, found)
    }

    /// Clears the detached sessions in `queue`, first to last.
    fn sweep(&mut self, queue: Vec<u64>, effects: Vec<Effect>) -> (step: Step)
        ensures
            (final(self)@, step@) == old(self)@.sweep(queue@, effects.deep_view()),
        decreases queue.len(),
    {
        if queue.len() == 0 {
            return self.finish(effects, Reply::Polled);
        }
        let session_id = queue[0];
        match self.registry.first_script(session_id) {
            Some(script_id) => self.unload_oldest(
                session_id,
                script_id,
                Purpose::Sweep { queue },
                effects,
            ),
            None => {
                let _ = self.registry.remove_session(session_id);
                let mut rest = queue;
                let _ = rest.remove(0);
                assert(rest@ =~= queue@.drop_first());
                let longer = and_then(effects, Effect::ReleaseSession { session_id });
                let longer = and_then(
                    longer,
                    Effect::Emit(
                        Notice::SessionDetached { session_id, reason: DetachReason::Disposed },
                    ),
                );
                assert(longer.deep_view() =~= effects.deep_view() + swept_effects(session_id));
                self.sweep(rest, longer)
            },
        }
    }

    /// Starts `script_post` for a message that arrives as a JSON value: the
    /// value is written out as text, and the work goes on as in
    /// [`FridaContext::script_post_encoded`], with that text, or with the
    /// encoder's words for its failure.
    pub fn script_post(
        &mut self,
        script_id: u64,
        message: &serde_json::Value,
        data: Option<Vec<u8>>,
    ) -> (step: Step)
        requires
            old(self)@.idle(),
            old(self)@.coherent(),
        ensures
            json_text(*message) matches Some(written) ==> (final(self)@, step@)
                == old(self)@.script_post(script_id, Ok(written), data.deep_view()),
            json_text(*message) is None ==> exists|failure: Seq<char>|
                (final(self)@, step@) == old(self)@.script_post(
                    script_id,
                    Err(failure),
                    data.deep_view(),
                ),
            final(self)@.coherent(),
            final(self)@.idle() <==> step@.next is Reply,
            forall|answer: AnswerView| #[trigger] told_by_query(final(self)@, step@, answer),
    {
        let encoded = encode_message(message);
        self.script_post_encoded(script_id, encoded, data)
    }

    /// Starts `script_post` for a message that the JSON encoder has
    /// written out already, or failed to. An unknown script, or one whose
    /// session is unknown, is refused; else the toolkit is asked whether
    /// the session is still attached.
    pub fn script_post_encoded(
        &mut self,
        script_id: u64,
        encoded: Result<String, String>,
        data: Option<Vec<u8>>,
    ) -> (step: Step)
        requires
            old(self)@.idle(),
            old(self)@.coherent(),
        ensures
            (final(self)@, step@) == old(self)@.script_post(
                script_id,
                text_result_view(encoded),
                data.deep_view(),
            ),
            final(self)@.coherent(),
            final(self)@.idle() <==> step@.next is Reply,
            forall|answer: AnswerView| #[trigger] told_by_query(final(self)@, step@, answer),
    {
        proof {
            let operation = OperationModel::ScriptPost {
                script_id,
                encoded: text_result_view(encoded),
                data: data.deep_view(),
            };
            lemma_first_step(self@, operation, 0);
        }
        match self.registry.session_of(script_id) {
            None => self.finish(
                no_effects(),
                Reply::Unit(Err(ServiceError::UnknownHandle(HandleKind::Script))),
            ),
            Some(session_id) => {
                if !self.registry.has_session(session_id) {
                    self.finish(
                        no_effects(),
                        Reply::Unit(Err(ServiceError::UnknownHandle(HandleKind::Session))),
                    )
                } else {
                    self.ask(
                        Pending::PostProbe { script_id, encoded, data },
                        no_effects(),
                        Query::IsDetached { session_id },
                    )
                }
            },
        }
    }

    /// The owner's state is known: to an attached session the message is
    /// forwarded, unless encoding failed or left a NUL in the text.
    fn post_probed(
        &mut self,
        script_id: u64,
        encoded: Result<String, String>,
        data: Option<Vec<u8>>,
        detached: bool,
    ) -> (step: Step)
        ensures
            (final(self)@, step@) == old(self)@.post_probed(
                script_id,
                text_result_view(encoded),
                data.deep_view(),
                detached,
            ),
    {
        if detached {
            return self.finish(no_effects(), Reply::Unit(Err(ServiceError::SessionDetached)));
        }
        match encoded {
            Err(message) => self.finish(
                no_effects(),
                Reply::Unit(Err(ServiceError::Encoding { message })),
            ),
            Ok(message) => {
                if contains_nul(message.as_str()) {
                    self.finish(no_effects(), Reply::Unit(Err(nul_error("message"))))
                } else {
                    self.ask(Pending::Post, no_effects(), Query::Post { script_id, message, data })
                }
            },
        }
    }

    /// Starts `spawn`. The device id, the program and every argument are
    /// checked for NUL, in this order, and the first offender is named in
    /// the failure. Only when all have passed is the cached process list
    /// dropped and the toolkit asked to spawn.
    pub fn spawn(
        &mut self,
        device_id: &str,
        program: String,
        argv: Option<Vec<String>>,
    ) -> (step: Step)
        requires
            old(self)@.idle(),
            old(self)@.coherent(),
        ensures
            (final(self)@, step@) == old(self)@.spawn(device_id@, program@, argv.deep_view()),
            final(self)@.coherent(),
            final(self)@.idle() <==> step@.next is Reply,
            forall|answer: AnswerView| #[trigger] told_by_query(final(self)@, step@, answer),
            has_nul(device_id@) ==> step@ == plain_reply(
                ReplyView::Spawned(Err(nul_in("device_id"@))),
            ) && final(self)@.registry == old(self)@.registry,
            !has_nul(device_id@) && has_nul(program@) ==> step@ == plain_reply(
                ReplyView::Spawned(Err(nul_in("program"@))),
            ) && final(self)@.registry == old(self)@.registry,
            !has_nul(device_id@) && !has_nul(program@) && !some_nul_arg(argv.deep_view())
                ==> final(self)@.cache is None,
            has_nul(device_id@) || has_nul(program@) || some_nul_arg(argv.deep_view())
                ==> final(self)@.cache == old(self)@.cache && step@.next is Reply
                && step@.effects.len() == 0,
    {
        proof {
            let operation = OperationModel::Spawn {
                device_id: device_id@,
                program: program@,
                argv: argv.deep_view(),
            };
            lemma_first_step(self@, operation, 0);
        }
        if contains_nul(device_id) {
            return self.finish(no_effects(), Reply::Spawned(Err(nul_error("device_id"))));
        }
        if contains_nul(program.as_str()) {
            return self.finish(no_effects(), Reply::Spawned(Err(nul_error("program"))));
        }
        match find_nul_arg(&argv) {
            Some(index) => {
                let label = argv_label_text(index);
                self.finish(
                    no_effects(),
                    Reply::Spawned(Err(ServiceError::InputValidation { label })),
                )
            },
            None => {
                self.cache = None;
                self.ask(
                    Pending::Spawn,
                    no_effects(),
                    Query::Spawn { device_id: String::from_str(device_id), program, argv },
                )
            },
        }
    }

    /// The toolkit has spawned, or refused to.
    fn spawned(&mut self, outcome: Result<u32, String>) -> (step: Step)
        ensures
            (final(self)@, step@) == old(self)@.spawned(outcome_view(outcome)),
    {
        match outcome {
            Ok(pid) => self.finish(no_effects(), Reply::Spawned(Ok(pid))),
            Err(message) => self.finish(
                no_effects(),
                Reply::Spawned(Err(ServiceError::DeviceError { message })),
            ),
        }
    }

    /// Starts `resume`: after the NUL check the toolkit is asked to resume
    /// the process.
    pub fn resume(&mut self, device_id: &str, pid: u32) -> (step: Step)
        requires
            old(self)@.idle(),
            old(self)@.coherent(),
        ensures
            (final(self)@, step@) == old(self)@.resume(device_id@, pid),
            final(self)@.coherent(),
            final(self)@.idle() <==> step@.next is Reply,
            forall|answer: AnswerView| #[trigger] told_by_query(final(self)@, step@, answer),
            has_nul(device_id@) ==> step@ == plain_reply(
                ReplyView::Unit(Err(nul_in("device_id"@))),
            ) && final(self)@.registry == old(self)@.registry,
    {
        proof {
            lemma_first_step(self@, OperationModel::Resume { device_id: device_id@, pid }, 0);
        }
        if contains_nul(device_id) {
            return self.finish(no_effects(), Reply::Unit(Err(nul_error("device_id"))));
        }
        self.ask(
            Pending::Passthrough,
            no_effects(),
            Query::Resume { device_id: String::from_str(device_id), pid },
        )
    }

    /// Starts `kill`: after the NUL check the cached process list is
    /// dropped and the toolkit is asked to kill the process.
    pub fn kill(&mut self, device_id: &str, pid: u32) -> (step: Step)
        requires
            old(self)@.idle(),
            old(self)@.coherent(),
        ensures
            (final(self)@, step@) == old(self)@.kill(device_id@, pid),
            final(self)@.coherent(),
            final(self)@.idle() <==> step@.next is Reply,
            forall|answer: AnswerView| #[trigger] told_by_query(final(self)@, step@, answer),
            has_nul(device_id@) ==> step@ == plain_reply(
                ReplyView::Unit(Err(nul_in("device_id"@))),
            ) && final(self)@.registry == old(self)@.registry,
            !has_nul(device_id@) ==> final(self)@.cache is None,
    {
        proof {
            lemma_first_step(self@, OperationModel::Kill { device_id: device_id@, pid }, 0);
        }
        if contains_nul(device_id) {
            return self.finish(no_effects(), Reply::Unit(Err(nul_error("device_id"))));
        }
        self.cache = None;
        self.ask(
            Pending::Passthrough,
            no_effects(),
            Query::Kill { device_id: String::from_str(device_id), pid },
        )
    }

    /// The reply for a toolkit verdict without a value.
    fn verdict(&mut self, outcome: Result<(), String>) -> (step: Step)
        ensures
            (final(self)@, step@) == old(self)@.finish(
                Seq::empty(),
                verdict_reply(outcome_view(outcome)),
            ),
    {
        match outcome {
            Ok(()) => self.finish(no_effects(), Reply::Unit(Ok(()))),
            Err(message) => self.finish(
                no_effects(),
                Reply::Unit(Err(ServiceError::DeviceError { message })),
            ),
        }
    }

    /// Whether `answer` is of the kind that the pending query calls for.
    pub fn accepts(&self, answer: &Answer) -> (expected: bool)
        ensures
            expected == self@.expects(answer@),
    {
        match self.pending {
            Pending::Idle => false,
            Pending::Version => match answer {
                Answer::Text(_) => true,
                _ => false,
            },
            Pending::ListDevices => match answer {
                Answer::Devices(_) => true,
                _ => false,
            },
            Pending::ListProcesses { .. } => match answer {
                Answer::Processes(_) => true,
                _ => false,
            },
            Pending::Spawn => match answer {
                Answer::Spawned(_) => true,
                _ => false,
            },
            Pending::LoadProbe { .. }
            | Pending::UnloadProbe { .. }
            | Pending::DetachProbe { .. }
            | Pending::PollScan { .. }
            | Pending::PostProbe { .. } => match answer {
                Answer::Detached(_) => true,
                _ => false,
            },
            Pending::Attach { .. }
            | Pending::LoadCreate { .. }
            | Pending::LoadSubscribe { .. }
            | Pending::LoadStart { .. }
            | Pending::UnloadCall { .. }
            | Pending::Detach { .. }
            | Pending::Post
            | Pending::Passthrough => match answer {
                Answer::Completed(_) => true,
                _ => false,
            },
        }
    }

    /// Takes the toolkit's answer to the pending query, at time `now`, and
    /// makes the next step of the operation under way.
    pub fn deliver(&mut self, answer: Answer, now: u64) -> (step: Step)
        requires
            old(self)@.expects(answer@),
            old(self)@.coherent(),
        ensures
            (final(self)@, step@) == old(self)@.deliver(answer@, now),
            final(self)@.coherent(),
            final(self)@.idle() <==> step@.next is Reply,
            forall|answer: AnswerView| #[trigger] told_by_query(final(self)@, step@, answer),
    {
        proof {
            law_deliver_keeps_registry_consistent(self@, answer@, now);
            law_busy_until_the_reply(self@, answer@, now);
            let ghost after = self@.deliver(answer@, now);
            assert forall|next: AnswerView| #[trigger] told_by_query(after.0, after.1, next) by {
                law_the_query_tells_the_kind_of_answer(
                    self@,
                    OperationModel::Version,
                    answer@,
                    now,
                    next,
                );
            }
        }
        let ghost before = self@;
        let mut pending = Pending::Idle;
        std::mem::swap(&mut self.pending, &mut pending);
        proof {
            // The steps below read the state without its pending query;
            // for the poller's recursion that takes a lemma.
            assert(before == self@.with_pending(before.pending));
            let release = |script_id: u64|
                Seq::<EffectView>::empty().push(EffectView::ReleaseScript { script_id });
            match before.pending {
                PendingModel::UnloadProbe { purpose, script_id, .. }
                | PendingModel::UnloadCall { purpose, script_id, .. } => {
                    if let PurposeModel::Sweep { queue } = purpose {
                        lemma_sweep_ignores_pending(
                            self@,
                            before.pending,
                            queue,
                            release(script_id),
                        );
                    }
                },
                PendingModel::PollScan { queue, found } => {
                    lemma_sweep_ignores_pending(self@, before.pending, found, Seq::empty());
                    if queue.len() > 0 {
                        lemma_sweep_ignores_pending(
                            self@,
                            before.pending,
                            found.push(queue[0]),
                            Seq::empty(),
                        );
                    }
                },
                _ => {},
            }
        }
        match (pending, answer) {
            (Pending::Version, Answer::Text(text)) => self.finish(
                no_effects(),
                Reply::Version(text),
            ),
            (Pending::ListDevices, Answer::Devices(devices)) => self.finish(
                no_effects(),
                Reply::Devices(devices),
            ),
            (Pending::ListProcesses { device_id }, Answer::Processes(outcome)) =>
                self.processes_listed(device_id, outcome, now),
            (Pending::Attach { device_id, pid }, Answer::Completed(outcome)) => self.attached(
                device_id,
                pid,
                outcome,
            ),
            (Pending::LoadProbe { session_id, origin }, Answer::Detached(detached)) =>
                self.load_probed(session_id, origin, detached),
            (Pending::LoadCreate { session_id, script_id, origin }, Answer::Completed(outcome)) =>
                self.load_created(session_id, script_id, origin, outcome),
            (
                Pending::LoadSubscribe { session_id, script_id, origin },
                Answer::Completed(outcome),
            ) => self.load_subscribed(session_id, script_id, origin, outcome),
            (Pending::LoadStart { session_id, script_id, origin }, Answer::Completed(outcome)) =>
                self.load_started(session_id, script_id, origin, outcome),
            (
                Pending::UnloadProbe { script_id, session_id, purpose },
                Answer::Detached(detached),
            ) => self.unload_probed(script_id, session_id, purpose, detached),
            (Pending::UnloadCall { script_id, session_id, purpose }, Answer::Completed(outcome)) =>
                self.end_unload(script_id, session_id, purpose, no_effects(), outcome),
            (Pending::Detach { session_id, record }, Answer::Completed(outcome)) =>
                self.detach_called(session_id, record, outcome),
            (Pending::DetachProbe { session_id, record, failure }, Answer::Detached(detached)) =>
                self.detach_probed(session_id, record, failure, detached),
            (Pending::PollScan { queue, found }, Answer::Detached(detached)) => self.poll_scanned(
                queue,
                found,
                detached,
            ),
            (Pending::PostProbe { script_id, encoded, data }, Answer::Detached(detached)) =>
                self.post_probed(script_id, encoded, data, detached),
            (Pending::Post, Answer::Completed(outcome)) => self.verdict(outcome),
            (Pending::Passthrough, Answer::Completed(outcome)) => self.verdict(outcome),
            (Pending::Spawn, Answer::Spawned(outcome)) => self.spawned(outcome),
            (pending, _) => {
                // Not reached: the answer is of the kind that is due.
                self.pending = pending;
                Step { effects: no_effects(), next: Next::Reply(Reply::Polled) }
            },
        }
    }
}

} // verus!
