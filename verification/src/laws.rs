//! Laws of the service that hold of every step.
//!
//! They are proved of the model that the actor follows, so they hold of the
//! actor itself: between any two steps the registry is consistent, the
//! actor is busy until it has replied, ids are never handed out twice, and
//! bad input is refused before the toolkit is asked.

use crate::error::{HandleKind, ServiceErrorView};
use crate::model::{
    plain_reply, refused, swept_effects, ContextModel, LoadOrigin, OperationModel, PendingModel,
    PurposeModel, PROCESS_CACHE_TTL_MS,
};
use crate::protocol::{
    answers, AnswerView, DetachReason, EffectView, NextView, NoticeView, QueryView, ReplyView,
    StepView,
};
use crate::registry_model::SessionModel;
use crate::types::ProcessInfoView;
use crate::validation::{has_nul, some_nul_arg};
use vstd::prelude::*;

verus! {

/// The cross-references of the registry are intact after the first step of
/// every operation: every script that a session lists points back to that
/// session, every script is listed by its session, and no id is in use
/// twice.
pub proof fn law_begin_keeps_registry_consistent(
    state: ContextModel,
    operation: OperationModel,
    now: u64,
)
    requires
        state.coherent(),
    ensures
        state.begin(operation, now).0.coherent(),
        state.begin(operation, now).0.registry.consistent(),
{
    match operation {
        OperationModel::Detach { session_id } => {
            lemma_teardown(state, session_id, Seq::empty());
        },
        OperationModel::LoadDefaultScript { session_id } => {
            lemma_begin_load(state, session_id, LoadOrigin::Direct);
        },
        OperationModel::UnloadScript { script_id } => {
            state.registry.lemma_remove_script_consistent(script_id);
        },
        OperationModel::Poll { order } => {
            lemma_sweep(state, Seq::empty(), Seq::empty());
        },
        _ => {},
    }
}

/// The cross-references of the registry are intact after every answer of
/// the toolkit, whether the operation goes on, succeeds or fails.
pub proof fn law_deliver_keeps_registry_consistent(
    state: ContextModel,
    answer: AnswerView,
    now: u64,
)
    requires
        state.coherent(),
    ensures
        state.deliver(answer, now).0.coherent(),
        state.deliver(answer, now).0.registry.consistent(),
{
    match (state.pending, answer) {
        (PendingModel::Attach { device_id, pid }, AnswerView::Completed(Ok(()))) => {
            if state.registry.has_session_id() {
                state.registry.lemma_open_session_consistent(device_id, pid);
                lemma_begin_load(
                    state.with_registry(state.registry.open_session(device_id, pid)),
                    state.registry.next_session_id,
                    LoadOrigin::Attach,
                );
            }
        },
        (PendingModel::LoadProbe { session_id, origin }, AnswerView::Detached(detached)) => {
            lemma_fail_load(
                state,
                session_id,
                origin,
                Seq::empty(),
                ServiceErrorView::SessionDetached,
            );
            lemma_fail_load(
                state,
                session_id,
                origin,
                Seq::empty(),
                ServiceErrorView::IdsExhausted,
            );
            if state.agent is Err {
                lemma_fail_load(state, session_id, origin, Seq::empty(), state.agent->Err_0);
            }
            if state.registry.has_script_id() {
                state.registry.lemma_reserve_script_id_consistent();
            }
        },
        (
            PendingModel::LoadCreate { session_id, script_id, origin },
            AnswerView::Completed(Err(message)),
        ) => {
            lemma_fail_load(state, session_id, origin, Seq::empty(), refused(message));
        },
        (
            PendingModel::LoadSubscribe { session_id, script_id, origin },
            AnswerView::Completed(Err(message)),
        ) => {
            lemma_fail_load(
                state,
                session_id,
                origin,
                seq![EffectView::ReleaseScript { script_id }],
                refused(message),
            );
        },
        (
            PendingModel::LoadStart { session_id, script_id, origin },
            AnswerView::Completed(outcome),
        ) => {
            match outcome {
                Err(message) => {
                    lemma_fail_load(
                        state,
                        session_id,
                        origin,
                        seq![EffectView::ReleaseScript { script_id }],
                        refused(message),
                    );
                },
                Ok(()) => {
                    if state.registry.sessions.contains_key(session_id) {
                        state.registry.lemma_add_script_consistent(session_id, script_id);
                    } else {
                        lemma_fail_load(
                            state,
                            session_id,
                            origin,
                            seq![EffectView::ReleaseScript { script_id }],
                            ServiceErrorView::UnknownHandle(HandleKind::Session),
                        );
                    }
                },
            }
        },
        (
            PendingModel::UnloadProbe { script_id, session_id, purpose },
            AnswerView::Detached(detached),
        ) => {
            lemma_end_unload(state, script_id, session_id, purpose, Seq::empty(), Ok(()));
        },
        (
            PendingModel::UnloadCall { script_id, session_id, purpose },
            AnswerView::Completed(outcome),
        ) => {
            lemma_end_unload(state, script_id, session_id, purpose, Seq::empty(), outcome);
        },
        (
            PendingModel::DetachProbe { session_id, record, failure },
            AnswerView::Detached(false),
        ) => {
            state.registry.lemma_restore_session_consistent(session_id, record);
        },
        (PendingModel::PollScan { queue, found }, AnswerView::Detached(detached)) => {
            lemma_sweep(state, found, Seq::empty());
            if queue.len() > 0 {
                lemma_sweep(state, found.push(queue[0]), Seq::empty());
            }
        },
        _ => {},
    }
}

/// Taking back a session that lists no script keeps the state coherent, whoever
/// asked for the agent.
proof fn lemma_fail_load(
    state: ContextModel,
    session_id: u64,
    origin: LoadOrigin,
    effects: Seq<EffectView>,
    error: ServiceErrorView,
)
    requires
        state.registry.consistent(),
        origin is Attach ==> state.registry.scripts_of(session_id).len() == 0,
    ensures
        state.fail_load(session_id, origin, effects, error).0.coherent(),
{
    if origin is Attach {
        state.registry.lemma_remove_session_consistent(session_id);
    }
}

/// Starting to load keeps the state coherent.
proof fn lemma_begin_load(state: ContextModel, session_id: u64, origin: LoadOrigin)
    requires
        state.registry.consistent(),
        origin is Attach ==> state.registry.scripts_of(session_id).len() == 0,
    ensures
        state.begin_load(session_id, origin).0.coherent(),
{
    lemma_fail_load(
        state,
        session_id,
        origin,
        Seq::empty(),
        ServiceErrorView::UnknownHandle(HandleKind::Session),
    );
    if state.agent is Err {
        lemma_fail_load(state, session_id, origin, Seq::empty(), state.agent->Err_0);
    }
}

/// Unloading the oldest script of a session keeps the state coherent.
proof fn lemma_unload_oldest(
    state: ContextModel,
    session_id: u64,
    purpose: PurposeModel,
    effects: Seq<EffectView>,
)
    requires
        state.registry.consistent(),
    ensures
        state.unload_oldest(session_id, purpose, effects).0.coherent(),
{
    state.registry.lemma_remove_script_consistent(state.registry.scripts_of(session_id)[0]);
}

/// A round of a requested detach keeps the state coherent.
proof fn lemma_teardown(state: ContextModel, session_id: u64, effects: Seq<EffectView>)
    requires
        state.registry.consistent(),
    ensures
        state.teardown(session_id, effects).0.coherent(),
{
    if state.registry.scripts_of(session_id).len() > 0 {
        lemma_unload_oldest(state, session_id, PurposeModel::Detach, effects);
    } else if state.registry.sessions.contains_key(session_id) {
        state.registry.lemma_remove_session_consistent(session_id);
    }
}

/// Clearing detached sessions keeps the state coherent.
proof fn lemma_sweep(state: ContextModel, queue: Seq<u64>, effects: Seq<EffectView>)
    requires
        state.registry.consistent(),
    ensures
        state.sweep(queue, effects).0.coherent(),
    decreases queue.len(),
{
    if queue.len() > 0 {
        let session_id = queue[0];
        if state.registry.scripts_of(session_id).len() > 0 {
            lemma_unload_oldest(state, session_id, PurposeModel::Sweep { queue }, effects);
        } else {
            state.registry.lemma_remove_session_consistent(session_id);
            lemma_sweep(
                state.with_registry(state.registry.remove_session(session_id)),
                queue.drop_first(),
                effects + swept_effects(session_id),
            );
        }
    }
}

/// Ending an unloading keeps the state coherent.
proof fn lemma_end_unload(
    state: ContextModel,
    script_id: u64,
    session_id: u64,
    purpose: PurposeModel,
    effects: Seq<EffectView>,
    outcome: Result<(), Seq<char>>,
)
    requires
        state.registry.consistent(),
    ensures
        state.end_unload(script_id, session_id, purpose, effects, outcome).0.coherent(),
{
    let effects = effects.push(EffectView::ReleaseScript { script_id });
    match purpose {
        PurposeModel::Single => {},
        PurposeModel::Detach => {
            lemma_teardown(state, session_id, effects);
        },
        PurposeModel::Sweep { queue } => {
            lemma_sweep(state, queue, effects);
        },
    }
}

/// Whether both id counters of `after` are at least those of `before`.
pub open spec fn counters_kept(before: ContextModel, after: ContextModel) -> bool {
    &&& before.registry.next_session_id <= after.registry.next_session_id
    &&& before.registry.next_script_id <= after.registry.next_script_id
}

/// The failure that a reply carries, if it carries one.
pub open spec fn failure_of(reply: ReplyView) -> Option<ServiceErrorView> {
    match reply {
        ReplyView::Processes(Err(error)) => Some(error),
        ReplyView::Attached(Err(error)) => Some(error),
        ReplyView::ScriptLoaded(Err(error)) => Some(error),
        ReplyView::Spawned(Err(error)) => Some(error),
        ReplyView::Unit(Err(error)) => Some(error),
        _ => None,
    }
}

/// Whether a string argument of the operation holds a NUL character.
pub open spec fn has_nul_argument(operation: OperationModel) -> bool {
    match operation {
        OperationModel::ListProcesses { device_id } => has_nul(device_id),
        OperationModel::Attach { device_id, .. } => has_nul(device_id),
        OperationModel::Spawn { device_id, program, argv } => has_nul(device_id) || has_nul(
            program,
        ) || some_nul_arg(argv),
        OperationModel::Resume { device_id, .. } => has_nul(device_id),
        OperationModel::Kill { device_id, .. } => has_nul(device_id),
        _ => false,
    }
}

/// An operation with a NUL in a string argument ends at once with an
/// input validation failure: the toolkit is asked nothing, nothing is
/// handed to the host, and registry and process cache stay as they were.
pub proof fn law_nul_is_rejected_before_any_call(
    state: ContextModel,
    operation: OperationModel,
    now: u64,
)
    requires
        has_nul_argument(operation),
    ensures
        state.begin(operation, now).1.next is Reply,
        failure_of(state.begin(operation, now).1.next->Reply_0) matches Some(
            ServiceErrorView::InputValidation { .. },
        ),
        state.begin(operation, now).1.effects.len() == 0,
        state.begin(operation, now).0.registry == state.registry,
        state.begin(operation, now).0.cache == state.cache,
{
}

/// `detach` of a session that is not registered fails as an unknown
/// handle, asks the toolkit nothing, and leaves registry and cache as
/// they were.
pub proof fn law_detach_unknown_session(state: ContextModel, session_id: u64)
    requires
        !state.registry.sessions.contains_key(session_id),
    ensures
        state.detach(session_id).1 == plain_reply(
            ReplyView::Unit(Err(ServiceErrorView::UnknownHandle(HandleKind::Session))),
        ),
        state.detach(session_id).0.registry == state.registry,
        state.detach(session_id).0.cache == state.cache,
{
}

/// `load_default_script` on a session that is not registered fails as an
/// unknown handle, asks the toolkit nothing and registers nothing.
pub proof fn law_no_script_for_an_unknown_session(state: ContextModel, session_id: u64)
    requires
        !state.registry.sessions.contains_key(session_id),
        state.agent is Ok,
    ensures
        state.load_default_script(session_id).1.next == NextView::Reply(
            ReplyView::ScriptLoaded(Err(ServiceErrorView::UnknownHandle(HandleKind::Session))),
        ),
        state.load_default_script(session_id).0.registry == state.registry,
{
}

/// `load_default_script` on a session that the toolkit reports as
/// detached fails for that reason and registers nothing.
pub proof fn law_no_script_for_a_detached_session(state: ContextModel, session_id: u64, now: u64)
    requires
        state.registry.sessions.contains_key(session_id),
        state.agent is Ok,
    ensures
        ({
            let asked = state.load_default_script(session_id);
            let answered = asked.0.deliver(AnswerView::Detached(true), now);
            &&& asked.1.next == NextView::Ask(QueryView::IsDetached { session_id })
            &&& answered.1.next == NextView::Reply(
                ReplyView::ScriptLoaded(Err(ServiceErrorView::SessionDetached)),
            )
            &&& answered.1.effects.len() == 0
            &&& answered.0.registry == state.registry
        }),
{
}

/// A process list that was enumerated at `fetched` for a device is served
/// again, unchanged and without asking the toolkit, as long as less than
/// the time to live has passed.
pub proof fn law_fresh_list_is_served_from_cache(
    state: ContextModel,
    device_id: Seq<char>,
    processes: Seq<ProcessInfoView>,
    fetched: u64,
    now: u64,
)
    requires
        state.pending == (PendingModel::ListProcesses { device_id }),
        !has_nul(device_id),
        device_id != "socket"@,
        now - fetched < PROCESS_CACHE_TTL_MS,
    ensures
        ({
            let listed = state.deliver(AnswerView::Processes(Ok(processes)), fetched);
            let again = listed.0.list_processes(device_id, now);
            &&& listed.1.next == NextView::Reply(ReplyView::Processes(Ok(processes)))
            &&& again.1.next == NextView::Reply(ReplyView::Processes(Ok(processes)))
            &&& again.1.effects.len() == 0
        }),
{
}

/// For another device, or once the time to live has passed, the cached
/// list is not served: the toolkit enumerates afresh.
pub proof fn law_stale_or_foreign_list_is_enumerated(
    state: ContextModel,
    device_id: Seq<char>,
    processes: Seq<ProcessInfoView>,
    fetched: u64,
    asked: Seq<char>,
    now: u64,
)
    requires
        state.pending == (PendingModel::ListProcesses { device_id }),
        !has_nul(asked),
        asked != "socket"@,
        asked != device_id || now - fetched >= PROCESS_CACHE_TTL_MS,
    ensures
        ({
            let listed = state.deliver(AnswerView::Processes(Ok(processes)), fetched);
            listed.0.list_processes(asked, now).1.next == NextView::Ask(
                QueryView::EnumerateProcesses { device_id: asked },
            )
        }),
{
}

/// When the toolkit refuses to detach a session because it had let go of
/// it already, `detach` still succeeds: the subscriber is told once, with
/// the reason `Disposed`, and the session stays out of the registry.
pub proof fn law_detach_of_disposed_session_succeeds(
    state: ContextModel,
    session_id: u64,
    record: SessionModel,
    failure: Seq<char>,
    now: u64,
)
    requires
        state.pending == (PendingModel::Detach { session_id, record }),
    ensures
        ({
            let refused = state.deliver(AnswerView::Completed(Err(failure)), now);
            let probed = refused.0.deliver(AnswerView::Detached(true), now);
            &&& refused.1 == (StepView {
                effects: Seq::empty(),
                next: NextView::Ask(QueryView::IsDetached { session_id }),
            })
            &&& probed.1.next == NextView::Reply(ReplyView::Unit(Ok(())))
            &&& probed.1.effects == seq![
                EffectView::Emit(
                    NoticeView::SessionDetached { session_id, reason: DetachReason::Disposed },
                ),
                EffectView::ReleaseSession { session_id },
            ]
            &&& probed.0.registry == state.registry
        }),
{
}

/// A failure to unload a script does not stop a teardown: the session is
/// cleared as if the script had unloaded.
pub proof fn law_teardown_swallows_unload_failures(
    state: ContextModel,
    script_id: u64,
    session_id: u64,
    purpose: PurposeModel,
    failure: Seq<char>,
)
    requires
        !(purpose is Single),
    ensures
        state.end_unload(script_id, session_id, purpose, Seq::empty(), Err(failure))
            == state.end_unload(script_id, session_id, purpose, Seq::empty(), Ok(())),
{
}

/// To an attached session `script_post` forwards the encoded message and
/// the bytes exactly as they came.
pub proof fn law_post_forwards_what_it_got(
    state: ContextModel,
    script_id: u64,
    message: Seq<char>,
    data: Option<Seq<u8>>,
    now: u64,
)
    requires
        state.coherent(),
        state.registry.scripts.contains_key(script_id),
        !has_nul(message),
    ensures
        ({
            let asked = state.script_post(script_id, Ok(message), data);
            let probed = asked.0.deliver(AnswerView::Detached(false), now);
            &&& asked.1.next == NextView::Ask(
                QueryView::IsDetached { session_id: state.registry.scripts[script_id] },
            )
            &&& probed.1.next == NextView::Ask(QueryView::Post { script_id, message, data })
            &&& probed.0.registry == state.registry
        }),
{
}

/// Whether the operation is one of those that may touch the process
/// cache: `list_processes`, which fills it, and `spawn` and `kill`, which
/// drop it once their arguments have passed.
pub open spec fn touches_cache(operation: OperationModel) -> bool {
    operation is ListProcesses || operation is Spawn || operation is Kill
}

/// The process cache changes only when a process list arrives and when
/// `spawn` or `kill` start: no step of any other operation touches it.
pub proof fn law_cache_is_kept_by_other_operations(
    state: ContextModel,
    operation: OperationModel,
    answer: AnswerView,
    now: u64,
)
    ensures
        !touches_cache(operation) ==> state.begin(operation, now).0.cache == state.cache,
        !(state.pending is ListProcesses) ==> state.deliver(answer, now).0.cache == state.cache,
{
    lemma_begin_keeps(state, operation, now);
    lemma_deliver_keeps(state, answer, now);
}

/// After the first step of an operation the actor is idle exactly when
/// that step was a reply: while a query is under way no other operation
/// can start.
pub proof fn law_idle_exactly_after_a_reply(
    state: ContextModel,
    operation: OperationModel,
    now: u64,
)
    ensures
        state.begin(operation, now).0.idle() <==> state.begin(operation, now).1.next is Reply,
{
    lemma_begin_keeps(state, operation, now);
}

/// After an answer of the kind that was due the actor is idle exactly
/// when the step was a reply: an operation runs to its end before the
/// next one can start.
pub proof fn law_busy_until_the_reply(state: ContextModel, answer: AnswerView, now: u64)
    requires
        state.expects(answer),
    ensures
        state.deliver(answer, now).0.idle() <==> state.deliver(answer, now).1.next is Reply,
{
    lemma_deliver_keeps(state, answer, now);
}

/// No step ever lowers an id counter. Since every id in use lies below
/// its counter, an id that was handed out once is never handed out again.
pub proof fn law_ids_are_never_reused(
    state: ContextModel,
    operation: OperationModel,
    answer: AnswerView,
    now: u64,
)
    ensures
        counters_kept(state, state.begin(operation, now).0),
        counters_kept(state, state.deliver(answer, now).0),
{
    lemma_begin_keeps(state, operation, now);
    lemma_deliver_keeps(state, answer, now);
}

/// Whether the actor, having made `step`, waits for `answer` exactly if
/// `answer` is of the kind that the query of the step calls for.
pub open spec fn told_by_query(after: ContextModel, step: StepView, answer: AnswerView) -> bool {
    step.next matches NextView::Ask(query) ==> (after.expects(answer) <==> answers(query, answer))
}

/// The query of a step tells the host which kind of answer is due: the
/// host needs to know nothing of the actor's state to answer properly.
pub proof fn law_the_query_tells_the_kind_of_answer(
    state: ContextModel,
    operation: OperationModel,
    given: AnswerView,
    now: u64,
    answer: AnswerView,
)
    ensures
        told_by_query(state.begin(operation, now).0, state.begin(operation, now).1, answer),
        state.expects(given) ==> told_by_query(
            state.deliver(given, now).0,
            state.deliver(given, now).1,
            answer,
        ),
{
    lemma_sweep_asks(state, Seq::empty(), Seq::empty(), answer);
    match state.pending {
        PendingModel::UnloadProbe { purpose: PurposeModel::Sweep { queue }, script_id, .. } => {
            lemma_sweep_asks(
                state,
                queue,
                Seq::<EffectView>::empty().push(EffectView::ReleaseScript { script_id }),
                answer,
            );
        },
        PendingModel::UnloadCall { purpose: PurposeModel::Sweep { queue }, script_id, .. } => {
            lemma_sweep_asks(
                state,
                queue,
                Seq::<EffectView>::empty().push(EffectView::ReleaseScript { script_id }),
                answer,
            );
        },
        PendingModel::PollScan { queue, found } => {
            lemma_sweep_asks(state, found, Seq::empty(), answer);
            if queue.len() > 0 {
                lemma_sweep_asks(state, found.push(queue[0]), Seq::empty(), answer);
            }
        },
        _ => {},
    }
}

/// The poller's clearing asks only about sessions.
proof fn lemma_sweep_asks(
    state: ContextModel,
    queue: Seq<u64>,
    effects: Seq<EffectView>,
    answer: AnswerView,
)
    ensures
        told_by_query(state.sweep(queue, effects).0, state.sweep(queue, effects).1, answer),
    decreases queue.len(),
{
    if queue.len() > 0 && state.registry.scripts_of(queue[0]).len() == 0 {
        lemma_sweep_asks(
            state.with_registry(state.registry.remove_session(queue[0])),
            queue.drop_first(),
            effects + swept_effects(queue[0]),
            answer,
        );
    }
}

/// Whether `step` went from `before` to `after` without lowering a
/// counter, and ended idle exactly if it replied.
spec fn orderly(before: ContextModel, after: ContextModel, step: StepView) -> bool {
    &&& counters_kept(before, after)
    &&& after.idle() <==> step.next is Reply
}

/// The poller's clearing is orderly and leaves the cache alone.
proof fn lemma_sweep_keeps(state: ContextModel, queue: Seq<u64>, effects: Seq<EffectView>)
    ensures
        orderly(state, state.sweep(queue, effects).0, state.sweep(queue, effects).1),
        state.sweep(queue, effects).0.cache == state.cache,
    decreases queue.len(),
{
    if queue.len() > 0 && state.registry.scripts_of(queue[0]).len() == 0 {
        lemma_sweep_keeps(
            state.with_registry(state.registry.remove_session(queue[0])),
            queue.drop_first(),
            effects + swept_effects(queue[0]),
        );
    }
}

/// The first step of every operation is orderly, and leaves the cache
/// alone unless the operation is one that touches it.
proof fn lemma_begin_keeps(state: ContextModel, operation: OperationModel, now: u64)
    ensures
        orderly(state, state.begin(operation, now).0, state.begin(operation, now).1),
        !touches_cache(operation) ==> state.begin(operation, now).0.cache == state.cache,
{
    lemma_sweep_keeps(state, Seq::empty(), Seq::empty());
}

/// The step after every answer leaves the counters at least where they
/// were, leaves the cache alone unless a process list arrived, and, for an
/// answer of the kind that was due, ends idle exactly if it replied.
proof fn lemma_deliver_keeps(state: ContextModel, answer: AnswerView, now: u64)
    ensures
        counters_kept(state, state.deliver(answer, now).0),
        !(state.pending is ListProcesses) ==> state.deliver(answer, now).0.cache == state.cache,
        state.expects(answer) ==> (state.deliver(answer, now).0.idle() <==> state.deliver(
            answer,
            now,
        ).1.next is Reply),
{
    match state.pending {
        PendingModel::UnloadProbe { purpose: PurposeModel::Sweep { queue }, script_id, .. } => {
            lemma_sweep_keeps(
                state,
                queue,
                Seq::<EffectView>::empty().push(EffectView::ReleaseScript { script_id }),
            );
        },
        PendingModel::UnloadCall { purpose: PurposeModel::Sweep { queue }, script_id, .. } => {
            lemma_sweep_keeps(
                state,
                queue,
                Seq::<EffectView>::empty().push(EffectView::ReleaseScript { script_id }),
            );
        },
        PendingModel::PollScan { queue, found } => {
            lemma_sweep_keeps(state, found, Seq::empty());
            if queue.len() > 0 {
                lemma_sweep_keeps(state, found.push(queue[0]), Seq::empty());
            }
        },
        _ => {},
    }
}

} // verus!
