//! Laws of the service that hold of whole operations.
//!
//! An operation is its first step and the steps that the toolkit's answers
//! lead to. Whatever those answers are: an `attach` that fails leaves no
//! session behind, an `attach` undone by `detach` leaves no trace, a
//! `detach` tells the subscriber once, and the poller clears exactly the
//! sessions that were reported as detached.

use crate::laws::{law_begin_keeps_registry_consistent, law_deliver_keeps_registry_consistent};
use crate::model::{
    detached_effects, follow, swept_effects, ContextModel, Move, OperationModel, PendingModel,
    PurposeModel,
};
use crate::protocol::{
    AnswerView, DetachReason, EffectView, NextView, NoticeView, QueryView, ReplyView, StepView,
};
use crate::registry_model::{lemma_strike, lemma_strike_shorter, strike, RegistryModel};
use crate::types::{ScriptInfo, SessionInfo};
use crate::validation::{has_nul, some_nul_arg};
use vstd::prelude::*;

verus! {

/// The events among `effects`, in order.
pub open spec fn emitted(effects: Seq<EffectView>) -> Seq<NoticeView>
    decreases effects.len(),
{
    if effects.len() == 0 {
        Seq::empty()
    } else {
        let before = emitted(effects.drop_last());
        match effects.last() {
            EffectView::Emit(notice) => before.push(notice),
            _ => before,
        }
    }
}

/// The event that tells the subscriber of a session that the toolkit had
/// let go of.
pub open spec fn disposal(session_id: u64) -> NoticeView {
    NoticeView::SessionDetached { session_id, reason: DetachReason::Disposed }
}

/// The events that tell the subscriber of the sessions in `cleared`, in
/// order.
pub open spec fn disposals(cleared: Seq<u64>) -> Seq<NoticeView> {
    Seq::new(cleared.len(), |i: int| disposal(cleared[i]))
}

/// The events of two runs of effects, one after the other.
proof fn lemma_emitted_add(first: Seq<EffectView>, second: Seq<EffectView>)
    ensures
        emitted(first + second) == emitted(first) + emitted(second),
    decreases second.len(),
{
    if second.len() == 0 {
        assert(first + second =~= first);
        assert(emitted(first) + emitted(second) =~= emitted(first));
    } else {
        assert((first + second).drop_last() =~= first + second.drop_last());
        lemma_emitted_add(first, second.drop_last());
        assert((first + second).last() == second.last());
        match second.last() {
            EffectView::Emit(notice) => {
                assert(emitted(first + second) =~= emitted(first) + emitted(second));
            },
            _ => {},
        }
    }
}

/// A run of effects that ends in giving up a script emits what came
/// before.
proof fn lemma_emitted_release(effects: Seq<EffectView>, script_id: u64)
    ensures
        emitted(effects.push(EffectView::ReleaseScript { script_id })) == emitted(effects),
{
    assert(effects.push(EffectView::ReleaseScript { script_id }).drop_last() =~= effects);
}

/// At most two effects without an event emit nothing.
proof fn lemma_emitted_pair(effects: Seq<EffectView>)
    requires
        effects.len() <= 2,
        forall|i: int| 0 <= i < effects.len() ==> !(#[trigger] effects[i] is Emit),
    ensures
        emitted(effects).len() == 0,
{
    reveal_with_fuel(emitted, 4);
    if effects.len() > 0 {
        assert(!(effects[effects.len() - 1] is Emit));
        if effects.len() > 1 {
            assert(!(effects.drop_last()[0] is Emit)) by {
                assert(effects.drop_last()[0] == effects[0]);
            }
        }
    }
}

/// The one event of a detach that has gone through.
proof fn lemma_emitted_detached(session_id: u64, reason: DetachReason)
    ensures
        emitted(detached_effects(session_id, reason)) == seq![
            NoticeView::SessionDetached { session_id, reason },
        ],
{
    reveal_with_fuel(emitted, 3);
    let all = detached_effects(session_id, reason);
    let head = seq![EffectView::Emit(NoticeView::SessionDetached { session_id, reason })];
    assert(all.drop_last() =~= head);
    assert(head.drop_last() =~= Seq::<EffectView>::empty());
    assert(emitted(head) =~= seq![NoticeView::SessionDetached { session_id, reason }]);
}

/// The events of the effects for one cleared session.
proof fn lemma_emitted_swept(session_id: u64)
    ensures
        emitted(swept_effects(session_id)) == disposals(seq![session_id]),
{
    reveal_with_fuel(emitted, 3);
    let all = swept_effects(session_id);
    assert(all.drop_last() =~= seq![EffectView::ReleaseSession { session_id }]);
    assert(all.drop_last().drop_last() =~= Seq::<EffectView>::empty());
    assert(emitted(all) =~= disposals(seq![session_id]));
}

/// Once an operation has replied, further answers change nothing.
proof fn lemma_idle_after_reply(start: Move, answers: Seq<AnswerView>, now: u64)
    requires
        start.1.next is Reply,
    ensures
        follow(start, answers, now) == start,
{
}

/// `attach` followed at once by `detach` of the new session, both
/// successful, leaves the sessions and the scripts that were registered
/// before, and the process cache as it was.
pub proof fn law_attach_then_detach_leaves_no_trace(
    state: ContextModel,
    device_id: Seq<char>,
    pid: u32,
    attach_answers: Seq<AnswerView>,
    detach_answers: Seq<AnswerView>,
    now: u64,
)
    requires
        state.coherent(),
        follow(state.attach(device_id, pid), attach_answers, now).1.next matches NextView::Reply(
            ReplyView::Attached(Ok(_)),
        ),
        follow(
            follow(state.attach(device_id, pid), attach_answers, now).0.detach(
                state.registry.next_session_id,
            ),
            detach_answers,
            now,
        ).1.next == NextView::Reply(ReplyView::Unit(Ok(()))),
    ensures
        ({
            let attached = follow(state.attach(device_id, pid), attach_answers, now);
            let detached = follow(
                attached.0.detach(state.registry.next_session_id),
                detach_answers,
                now,
            );
            &&& attached.1.next == NextView::Reply(
                ReplyView::Attached(
                    Ok(
                        SessionInfo {
                            session_id: state.registry.next_session_id,
                            script_id: state.registry.next_script_id,
                        },
                    ),
                ),
            )
            &&& detached.0.registry.sessions == state.registry.sessions
            &&& detached.0.registry.scripts == state.registry.scripts
            &&& detached.0.cache == state.cache
        }),
{
    lemma_attach_success(state, device_id, pid, attach_answers, now);
    let attached = follow(state.attach(device_id, pid), attach_answers, now);
    let session_id = state.registry.next_session_id;
    let script_id = state.registry.next_script_id;
    let opened = state.registry.open_session(device_id, pid);
    state.registry.lemma_open_session_consistent(device_id, pid);
    let registry = attached.0.registry;
    assert(registry.sessions[session_id].script_ids =~= seq![script_id]);
    assert(registry.scripts_of(session_id)[0] == script_id);
    let unloaded = registry.remove_script(script_id);
    lemma_strike(seq![script_id], script_id);
    assert(unloaded.scripts =~= state.registry.scripts);
    assert(unloaded.scripts_of(session_id) =~= Seq::<u64>::empty()) by {
        let rest = strike(seq![script_id], script_id);
        if rest.len() > 0 {
            assert(rest.contains(rest[0]));
            assert(seq![script_id].contains(rest[0]));
        }
    }
    assert(unloaded.remove_session(session_id).sessions =~= state.registry.sessions);

    reveal_with_fuel(follow, 5);
    let d0 = attached.0.detach(session_id);
    assert(d0.0.registry == unloaded);
    assert(d0.1.next is Ask);
    assert(detach_answers.len() > 0);
    let d1 = d0.0.deliver(detach_answers[0], now);
    let b1 = detach_answers.drop_first();
    assert(d1.1.next is Ask);
    assert(b1.len() > 0);
    let d2 = d1.0.deliver(b1[0], now);
    let b2 = b1.drop_first();
    if d2.1.next is Ask {
        assert(b2.len() > 0);
        let d3 = d2.0.deliver(b2[0], now);
        let b3 = b2.drop_first();
        if d3.1.next is Ask {
            assert(b3.len() > 0);
            let d4 = d3.0.deliver(b3[0], now);
            assert(d4.1.next is Reply);
        }
    }
}

/// What a successful `attach` leaves behind: one new session under the
/// next session id, with one script under the next script id.
proof fn lemma_attach_success(
    state: ContextModel,
    device_id: Seq<char>,
    pid: u32,
    answers: Seq<AnswerView>,
    now: u64,
)
    requires
        follow(state.attach(device_id, pid), answers, now).1.next matches NextView::Reply(
            ReplyView::Attached(Ok(_)),
        ),
    ensures
        ({
            let attached = follow(state.attach(device_id, pid), answers, now);
            let session_id = state.registry.next_session_id;
            let script_id = state.registry.next_script_id;
            &&& attached.1.next == NextView::Reply(
                ReplyView::Attached(Ok(SessionInfo { session_id, script_id })),
            )
            &&& attached.0.registry == state.registry.open_session(
                device_id,
                pid,
            ).reserve_script_id().add_script(session_id, script_id)
            &&& attached.0.cache == state.cache
            &&& attached.0.agent == state.agent
            &&& state.registry.has_session_id()
            &&& state.registry.has_script_id()
        }),
{
    reveal_with_fuel(follow, 6);
    let s0 = state.attach(device_id, pid);
    assert(s0.1.next is Ask);
    assert(answers.len() > 0);
    let s1 = s0.0.deliver(answers[0], now);
    let a1 = answers.drop_first();
    assert(s1.1.next is Ask);
    assert(a1.len() > 0);
    let s2 = s1.0.deliver(a1[0], now);
    let a2 = a1.drop_first();
    assert(s2.1.next is Ask);
    assert(a2.len() > 0);
    let s3 = s2.0.deliver(a2[0], now);
    let a3 = a2.drop_first();
    assert(s3.1.next is Ask);
    assert(a3.len() > 0);
    let s4 = s3.0.deliver(a3[0], now);
    let a4 = a3.drop_first();
    assert(s4.1.next is Ask);
    assert(a4.len() > 0);
    let s5 = s4.0.deliver(a4[0], now);
    assert(s5.1.next is Reply);
}

/// An `attach` that fails, at whatever stage, leaves the sessions and the
/// scripts that were registered before and tells the subscriber nothing:
/// no caller sees a session half attached.
pub proof fn law_failed_attach_leaves_no_session(
    state: ContextModel,
    device_id: Seq<char>,
    pid: u32,
    answers: Seq<AnswerView>,
    now: u64,
)
    requires
        state.coherent(),
        follow(state.attach(device_id, pid), answers, now).1.next matches NextView::Reply(
            ReplyView::Attached(Err(_)),
        ),
    ensures
        ({
            let failed = follow(state.attach(device_id, pid), answers, now);
            &&& failed.0.registry.sessions == state.registry.sessions
            &&& failed.0.registry.scripts == state.registry.scripts
            &&& emitted(failed.1.effects).len() == 0
        }),
{
    reveal_with_fuel(follow, 6);
    reveal_with_fuel(emitted, 4);
    let s0 = state.attach(device_id, pid);
    if s0.1.next is Ask {
        state.registry.lemma_open_session_consistent(device_id, pid);
        let session_id = state.registry.next_session_id;
        let opened = state.registry.open_session(device_id, pid);
        assert(opened.remove_session(session_id).sessions =~= state.registry.sessions);
        assert(opened.reserve_script_id().remove_session(session_id).sessions
            =~= state.registry.sessions);
        let s1 = s0.0.deliver(answers[0], now);
        let a1 = answers.drop_first();
        let e1 = s0.1.effects + s1.1.effects;
        if s1.1.next is Ask {
            let s2 = s1.0.deliver(a1[0], now);
            let a2 = a1.drop_first();
            let e2 = e1 + s2.1.effects;
            if s2.1.next is Ask {
                let s3 = s2.0.deliver(a2[0], now);
                let a3 = a2.drop_first();
                let e3 = e2 + s3.1.effects;
                if s3.1.next is Ask {
                    let s4 = s3.0.deliver(a3[0], now);
                    let a4 = a3.drop_first();
                    let e4 = e3 + s4.1.effects;
                    if s4.1.next is Ask {
                        let s5 = s4.0.deliver(a4[0], now);
                        let e5 = e4 + s5.1.effects;
                        assert(s5.1.next is Reply);
                        assert(e5 =~= s5.1.effects);
                        lemma_emitted_pair(s5.1.effects);
                    } else {
                        assert(e4 =~= s4.1.effects);
                        lemma_emitted_pair(s4.1.effects);
                    }
                } else {
                    assert(e3 =~= s3.1.effects);
                    lemma_emitted_pair(s3.1.effects);
                }
            } else {
                assert(e2 =~= s2.1.effects);
                lemma_emitted_pair(s2.1.effects);
            }
        } else {
            assert(e1 =~= s1.1.effects);
            lemma_emitted_pair(s1.1.effects);
        }
    }
}

/// A `load_default_script` that succeeds has registered exactly one new
/// script, under the id that was next, at the end of the session's list.
pub proof fn law_loaded_script_is_registered(
    state: ContextModel,
    session_id: u64,
    answers: Seq<AnswerView>,
    now: u64,
)
    requires
        follow(state.load_default_script(session_id), answers, now).1.next matches NextView::Reply(
            ReplyView::ScriptLoaded(Ok(_)),
        ),
    ensures
        ({
            let done = follow(state.load_default_script(session_id), answers, now);
            let script_id = state.registry.next_script_id;
            &&& done.1.next == NextView::Reply(
                ReplyView::ScriptLoaded(Ok(ScriptInfo { script_id })),
            )
            &&& done.0.registry == state.registry.reserve_script_id().add_script(
                session_id,
                script_id,
            )
            &&& state.registry.sessions.contains_key(session_id)
            &&& done.0.registry.scripts_of(session_id) == state.registry.scripts_of(
                session_id,
            ).push(script_id)
            &&& done.1.effects.len() == 0
        }),
{
    reveal_with_fuel(follow, 5);
    let s0 = state.load_default_script(session_id);
    assert(s0.1.next is Ask);
    let s1 = s0.0.deliver(answers[0], now);
    let a1 = answers.drop_first();
    assert(s1.1.next is Ask);
    let s2 = s1.0.deliver(a1[0], now);
    let a2 = a1.drop_first();
    assert(s2.1.next is Ask);
    let s3 = s2.0.deliver(a2[0], now);
    let a3 = a2.drop_first();
    assert(s3.1.next is Ask);
    let s4 = s3.0.deliver(a3[0], now);
    assert(s4.1.next is Reply);
    assert(s0.1.effects + s1.1.effects + s2.1.effects + s3.1.effects + s4.1.effects
        =~= Seq::<EffectView>::empty());
}

/// `unload_script` of a registered script, whatever the toolkit answers,
/// ends with the script out of the registry and its handle given up, and
/// with nothing else handed to the host.
pub proof fn law_unload_always_releases(
    state: ContextModel,
    script_id: u64,
    answers: Seq<AnswerView>,
    now: u64,
)
    requires
        state.coherent(),
        state.registry.scripts.contains_key(script_id),
        follow(state.unload_script(script_id), answers, now).1.next matches NextView::Reply(
            ReplyView::Unit(_),
        ),
    ensures
        ({
            let done = follow(state.unload_script(script_id), answers, now);
            &&& done.1.effects == seq![EffectView::ReleaseScript { script_id }]
            &&& done.0.registry == state.registry.remove_script(script_id)
            &&& !done.0.registry.scripts.contains_key(script_id)
        }),
{
    reveal_with_fuel(follow, 3);
    state.registry.lemma_remove_script_consistent(script_id);
    let s0 = state.unload_script(script_id);
    assert(s0.1.next is Ask);
    let s1 = s0.0.deliver(answers[0], now);
    if s1.1.next is Ask {
        let s2 = s1.0.deliver(answers.drop_first()[0], now);
        assert(s0.1.effects + s1.1.effects + s2.1.effects =~= s2.1.effects);
        assert(s2.1.effects =~= seq![EffectView::ReleaseScript { script_id }]);
    } else {
        assert(s0.1.effects + s1.1.effects =~= s1.1.effects);
        assert(s1.1.effects =~= seq![EffectView::ReleaseScript { script_id }]);
    }
}

/// What holds of a `detach` of `session_id` once it has replied: a
/// success has told the subscriber exactly once and left the session out
/// of the registry; a failure has told the subscriber nothing.
pub open spec fn detach_settled(done: Move, session_id: u64) -> bool {
    done.1.next matches NextView::Reply(reply) ==> if reply == ReplyView::Unit(Ok(())) {
        &&& !done.0.registry.sessions.contains_key(session_id)
        &&& exists|reason: DetachReason|
            emitted(done.1.effects) == seq![NoticeView::SessionDetached { session_id, reason }]
    } else {
        emitted(done.1.effects).len() == 0
    }
}

/// Whatever the toolkit answers, a `detach` that succeeds tells the
/// subscriber exactly once that the session is gone, and leaves the
/// session out of the registry; a `detach` that fails tells the
/// subscriber nothing.
pub proof fn law_detach_tells_the_subscriber_once(
    state: ContextModel,
    session_id: u64,
    answers: Seq<AnswerView>,
    now: u64,
)
    requires
        state.coherent(),
    ensures
        detach_settled(follow(state.detach(session_id), answers, now), session_id),
{
    law_begin_keeps_registry_consistent(state, OperationModel::Detach { session_id }, now);
    lemma_detach_trace(state.detach(session_id), session_id, answers, now);
}

/// Whether the query under way belongs to a requested detach of
/// `session_id`.
spec fn detaching(pending: PendingModel, session_id: u64) -> bool {
    match pending {
        PendingModel::UnloadProbe { session_id: owner, purpose: PurposeModel::Detach, .. } => owner
            == session_id,
        PendingModel::UnloadCall { session_id: owner, purpose: PurposeModel::Detach, .. } => owner
            == session_id,
        PendingModel::Detach { session_id: owner, .. } => owner == session_id,
        PendingModel::DetachProbe { session_id: owner, .. } => owner == session_id,
        _ => false,
    }
}

/// A detach that is under way settles as [`detach_settled`] says.
proof fn lemma_detach_trace(start: Move, session_id: u64, answers: Seq<AnswerView>, now: u64)
    requires
        start.0.coherent(),
        start.1.next is Ask ==> detaching(start.0.pending, session_id),
        start.1.next is Reply ==> detach_settled(start, session_id),
        start.1.next is Ask ==> emitted(start.1.effects).len() == 0,
    ensures
        detach_settled(follow(start, answers, now), session_id),
    decreases answers.len(),
{
    if answers.len() > 0 && start.1.next is Ask {
        let state = start.0;
        let answer = answers[0];
        let (after, step) = state.deliver(answer, now);
        let next = (after, StepView { effects: start.1.effects + step.effects, next: step.next });
        law_deliver_keeps_registry_consistent(state, answer, now);
        lemma_emitted_add(start.1.effects, step.effects);
        assert(emitted(next.1.effects) =~= emitted(step.effects));
        match (state.pending, answer) {
            (
                PendingModel::UnloadProbe { script_id, session_id: owner, purpose },
                AnswerView::Detached(detached),
            ) => {
                lemma_emitted_release(Seq::empty(), script_id);
            },
            (
                PendingModel::UnloadCall { script_id, session_id: owner, purpose },
                AnswerView::Completed(outcome),
            ) => {
                lemma_emitted_release(Seq::empty(), script_id);
            },
            (PendingModel::Detach { .. }, AnswerView::Completed(Ok(()))) => {
                lemma_emitted_detached(session_id, DetachReason::User);
            },
            (PendingModel::DetachProbe { .. }, AnswerView::Detached(true)) => {
                lemma_emitted_detached(session_id, DetachReason::Disposed);
            },
            _ => {},
        }
        lemma_detach_trace(next, session_id, answers.drop_first(), now);
    }
}

/// After `spawn` has passed its checks on device, program and arguments,
/// whatever the toolkit answers, the next `list_processes` enumerates
/// afresh.
pub proof fn law_spawn_drops_the_cache(
    state: ContextModel,
    device_id: Seq<char>,
    program: Seq<char>,
    argv: Option<Seq<Seq<char>>>,
    answers: Seq<AnswerView>,
    asked: Seq<char>,
    now: u64,
)
    requires
        !has_nul(device_id),
        !has_nul(program),
        !some_nul_arg(argv),
        !has_nul(asked),
        asked != "socket"@,
    ensures
        ({
            let spawned = follow(state.spawn(device_id, program, argv), answers, now);
            &&& spawned.0.cache is None
            &&& spawned.1.next is Reply ==> spawned.0.list_processes(asked, now).1.next
                == NextView::Ask(QueryView::EnumerateProcesses { device_id: asked })
        }),
{
    lemma_short_operation(state.spawn(device_id, program, argv), answers, now);
}

/// After `kill` has passed its check on the device, whatever the toolkit
/// answers, the next `list_processes` enumerates afresh.
pub proof fn law_kill_drops_the_cache(
    state: ContextModel,
    device_id: Seq<char>,
    pid: u32,
    answers: Seq<AnswerView>,
    asked: Seq<char>,
    now: u64,
)
    requires
        !has_nul(device_id),
        !has_nul(asked),
        asked != "socket"@,
    ensures
        ({
            let killed = follow(state.kill(device_id, pid), answers, now);
            &&& killed.0.cache is None
            &&& killed.1.next is Reply ==> killed.0.list_processes(asked, now).1.next
                == NextView::Ask(QueryView::EnumerateProcesses { device_id: asked })
        }),
{
    lemma_short_operation(state.kill(device_id, pid), answers, now);
}

/// An operation that waits for a single verdict of the toolkit keeps
/// registry and cache whatever the answers are.
proof fn lemma_short_operation(start: Move, answers: Seq<AnswerView>, now: u64)
    requires
        start.0.pending is Spawn || start.0.pending is Passthrough || start.0.pending is Idle,
        start.0.pending is Idle <==> start.1.next is Reply,
    ensures
        follow(start, answers, now).0.cache == start.0.cache,
        follow(start, answers, now).0.registry == start.0.registry,
    decreases answers.len(),
{
    if answers.len() > 0 && start.1.next is Ask {
        let (state, step) = start.0.deliver(answers[0], now);
        let next = (state, StepView { effects: start.1.effects + step.effects, next: step.next });
        lemma_idle_after_reply(next, answers.drop_first(), now);
    }
}

/// Whether every session outside `queue` is registered in `after` exactly
/// as it is in `before`, and no session is registered that was not.
pub open spec fn others_untouched(
    before: RegistryModel,
    after: RegistryModel,
    queue: Seq<u64>,
) -> bool {
    &&& forall|session_id: u64| #[trigger]
        after.sessions.contains_key(session_id) ==> before.sessions.contains_key(session_id)
    &&& forall|session_id: u64|
        !queue.contains(session_id) && #[trigger] before.sessions.contains_key(session_id) ==> {
            &&& after.sessions.contains_key(session_id)
            &&& after.sessions[session_id] == before.sessions[session_id]
        }
}

/// What holds once the poller has cleared `queue`: every session of the
/// queue is out of the registry, the subscriber was told of each in order,
/// and every other session is registered as before.
pub open spec fn cleared(origin: RegistryModel, queue: Seq<u64>, done: Move) -> bool {
    &&& done.1.next == NextView::Reply(ReplyView::Polled)
    &&& emitted(done.1.effects) == disposals(queue)
    &&& forall|i: int|
        0 <= i < queue.len() ==> !done.0.registry.sessions.contains_key(#[trigger] queue[i])
    &&& others_untouched(origin, done.0.registry, queue)
}

/// The sessions of `order` that the toolkit reported as detached, where
/// `flags` holds its answers in the same order.
pub open spec fn reported(order: Seq<u64>, flags: Seq<bool>) -> Seq<u64>
    decreases order.len(),
{
    if order.len() == 0 || flags.len() == 0 {
        Seq::empty()
    } else {
        let later = reported(order.drop_first(), flags.drop_first());
        if flags[0] {
            seq![order[0]] + later
        } else {
            later
        }
    }
}

/// The toolkit's answers to the poller's questions, one for each flag.
pub open spec fn detached_answers(flags: Seq<bool>) -> Seq<AnswerView> {
    Seq::new(flags.len(), |i: int| AnswerView::Detached(flags[i]))
}

/// A health poll asks the toolkit about every session of `order`. Once it
/// has replied, whatever the toolkit answered while scripts were unloaded,
/// exactly the sessions that were reported as detached are out of the
/// registry, the subscriber was told of each once, and every other session
/// is registered as before.
pub proof fn law_poll_clears_the_detached_sessions(
    state: ContextModel,
    order: Seq<u64>,
    flags: Seq<bool>,
    answers: Seq<AnswerView>,
    now: u64,
)
    requires
        state.coherent(),
        flags.len() == order.len(),
    ensures
        ({
            let done = follow(
                state.poll_detached_sessions(order),
                detached_answers(flags) + answers,
                now,
            );
            done.1.next is Reply ==> cleared(state.registry, reported(order, flags), done)
        }),
{
    lemma_scan_trace(state, order, Seq::empty(), flags, answers, now);
    assert(Seq::<u64>::empty() + reported(order, flags) =~= reported(order, flags));
}

/// Whatever the toolkit answers while scripts are unloaded, once the
/// poller has cleared the sessions it found detached, each of them is out
/// of the registry, the subscriber was told of each exactly once and in
/// order, and every other session is registered as before.
pub proof fn law_poller_clears_what_it_found(
    state: ContextModel,
    found: Seq<u64>,
    answers: Seq<AnswerView>,
    now: u64,
)
    requires
        state.registry.consistent(),
    ensures
        ({
            let done = follow(state.sweep(found, Seq::empty()), answers, now);
            done.1.next is Reply ==> cleared(state.registry, found, done)
        }),
{
    reveal_with_fuel(emitted, 1);
    lemma_sweep_round(state, found, Seq::empty());
    let start = state.sweep(found, Seq::empty());
    let count = choose|count: int| clearing_from(state, found, Seq::empty(), count, start);
    assert(emitted(Seq::<EffectView>::empty()) + disposals(found.take(count)) =~= disposals(
        found.take(count),
    ));
    assert(clearing(state.registry, found, count, start));
    lemma_sweep_trace(state.registry, found, count, start, answers, now);
}

/// The poller's questions lead to the clearing of what was reported.
proof fn lemma_scan_trace(
    state: ContextModel,
    queue: Seq<u64>,
    found: Seq<u64>,
    flags: Seq<bool>,
    answers: Seq<AnswerView>,
    now: u64,
)
    requires
        state.registry.consistent(),
        flags.len() == queue.len(),
    ensures
        ({
            let done = follow(state.scan(queue, found), detached_answers(flags) + answers, now);
            done.1.next is Reply ==> cleared(state.registry, found + reported(queue, flags), done)
        }),
    decreases queue.len(),
{
    let all = detached_answers(flags) + answers;
    if queue.len() == 0 {
        assert(all =~= answers);
        assert(found + reported(queue, flags) =~= found);
        law_poller_clears_what_it_found(state, found, answers, now);
    } else {
        let asked = state.scan(queue, found);
        assert(all[0] == AnswerView::Detached(flags[0]));
        assert(all.drop_first() =~= detached_answers(flags.drop_first()) + answers);
        let next_found = if flags[0] {
            found.push(queue[0])
        } else {
            found
        };
        let (after, step) = asked.0.deliver(all[0], now);
        assert((after, step) == asked.0.scan(queue.drop_first(), next_found));
        let next = (after, StepView { effects: asked.1.effects + step.effects, next: step.next });
        assert(asked.1.effects + step.effects =~= step.effects);
        assert(next == (after, step));
        lemma_scan_trace(asked.0, queue.drop_first(), next_found, flags.drop_first(), answers, now);
        assert(next_found + reported(queue.drop_first(), flags.drop_first()) =~= found + reported(
            queue,
            flags,
        ));
    }
}

/// How far a clearing of `queue` that started from the registry `origin`
/// has come with `reached`: the first `count` sessions are gone and the
/// subscriber was told of each; a reply means that all are gone; else the
/// next session has a script being unloaded.
spec fn clearing(
    origin: RegistryModel,
    queue: Seq<u64>,
    count: int,
    reached: Move,
) -> bool {
    &&& 0 <= count <= queue.len()
    &&& reached.0.registry.consistent()
    &&& emitted(reached.1.effects) == disposals(queue.take(count))
    &&& forall|i: int|
        0 <= i < count ==> !reached.0.registry.sessions.contains_key(#[trigger] queue[i])
    &&& others_untouched(origin, reached.0.registry, queue)
    &&& match reached.1.next {
        NextView::Reply(reply) => count == queue.len() && reply == ReplyView::Polled,
        NextView::Ask(_) => count < queue.len() && match reached.0.pending {
            PendingModel::UnloadProbe { session_id, purpose, .. }
            | PendingModel::UnloadCall { session_id, purpose, .. } => session_id == queue[count]
                && purpose == (PurposeModel::Sweep { queue: queue.skip(count) }),
            _ => false,
        },
    }
}

/// [`clearing`] for a run that starts at `state` with the effects
/// `effects` handed on from before.
spec fn clearing_from(
    state: ContextModel,
    queue: Seq<u64>,
    effects: Seq<EffectView>,
    count: int,
    reached: Move,
) -> bool {
    &&& 0 <= count <= queue.len()
    &&& reached.0.registry.consistent()
    &&& emitted(reached.1.effects) == emitted(effects) + disposals(queue.take(count))
    &&& forall|i: int|
        0 <= i < count ==> !reached.0.registry.sessions.contains_key(#[trigger] queue[i])
    &&& others_untouched(state.registry, reached.0.registry, queue)
    &&& match reached.1.next {
        NextView::Reply(reply) => count == queue.len() && reply == ReplyView::Polled,
        NextView::Ask(_) => count < queue.len() && match reached.0.pending {
            PendingModel::UnloadProbe { session_id, purpose, .. } => session_id == queue[count]
                && purpose == (PurposeModel::Sweep { queue: queue.skip(count) }),
            _ => false,
        },
    }
}

/// The script that is being unloaded, if one is.
spec fn script_under_way(pending: PendingModel) -> u64 {
    match pending {
        PendingModel::UnloadProbe { script_id, .. } => script_id,
        PendingModel::UnloadCall { script_id, .. } => script_id,
        _ => 0,
    }
}

/// Unloading a script changes the record of its owner only.
proof fn lemma_remove_script_elsewhere(registry: RegistryModel, session_id: u64)
    requires
        registry.consistent(),
        registry.scripts_of(session_id).len() > 0,
    ensures
        ({
            let after = registry.remove_script(registry.scripts_of(session_id)[0]);
            &&& after.consistent()
            &&& after.sessions.dom() == registry.sessions.dom()
            &&& forall|other: u64|
                other != session_id && #[trigger] registry.sessions.contains_key(other)
                    ==> after.sessions[other] == registry.sessions[other]
        }),
{
    let script_id = registry.sessions[session_id].script_ids[0];
    assert(registry.scripts.contains_key(script_id) && registry.scripts[script_id] == session_id);
    registry.lemma_remove_script_consistent(script_id);
}

/// One run of the poller's clearing, up to its next query or its reply.
proof fn lemma_sweep_round(state: ContextModel, queue: Seq<u64>, effects: Seq<EffectView>)
    requires
        state.registry.consistent(),
    ensures
        exists|count: int|
            clearing_from(state, queue, effects, count, state.sweep(queue, effects)),
    decreases queue.len(),
{
    let reached = state.sweep(queue, effects);
    if queue.len() == 0 {
        assert(queue.take(0) =~= Seq::<u64>::empty());
        assert(emitted(effects) + disposals(queue.take(0)) =~= emitted(effects));
        assert(clearing_from(state, queue, effects, 0, reached));
    } else {
        let session_id = queue[0];
        if state.registry.scripts_of(session_id).len() > 0 {
            lemma_remove_script_elsewhere(state.registry, session_id);
            assert(queue.take(0) =~= Seq::<u64>::empty());
            assert(emitted(effects) + disposals(queue.take(0)) =~= emitted(effects));
            assert(queue.skip(0) =~= queue);
            assert(queue.contains(session_id));
            assert(clearing_from(state, queue, effects, 0, reached));
        } else {
            let smaller = state.with_registry(state.registry.remove_session(session_id));
            let rest = queue.drop_first();
            let longer = effects + swept_effects(session_id);
            state.registry.lemma_remove_session_consistent(session_id);
            lemma_sweep_round(smaller, rest, longer);
            let count = choose|count: int| clearing_from(smaller, rest, longer, count, reached);
            lemma_emitted_add(effects, swept_effects(session_id));
            lemma_emitted_swept(session_id);
            assert(disposals(seq![session_id]) + disposals(rest.take(count)) =~= disposals(
                queue.take(count + 1),
            )) by {
                assert(queue.take(count + 1) =~= seq![session_id] + rest.take(count));
            }
            assert(emitted(reached.1.effects) =~= emitted(effects) + disposals(
                queue.take(count + 1),
            ));
            assert forall|i: int| 0 <= i < count + 1 implies {
                !reached.0.registry.sessions.contains_key(#[trigger] queue[i])
            } by {
                if i > 0 {
                    assert(queue[i] == rest[i - 1]);
                }
            }
            assert(others_untouched(state.registry, reached.0.registry, queue)) by {
                assert forall|other: u64|
                    !queue.contains(other) && #[trigger] state.registry.sessions.contains_key(
                        other,
                    ) implies reached.0.registry.sessions.contains_key(other)
                    && reached.0.registry.sessions[other] == state.registry.sessions[other] by {
                    assert(other != session_id);
                    assert(smaller.registry.sessions.contains_key(other));
                    if rest.contains(other) {
                        let j = choose|j: int| 0 <= j < rest.len() && rest[j] == other;
                        assert(queue[j + 1] == other);
                    }
                }
            }
            if count < rest.len() {
                assert(rest.skip(count) =~= queue.skip(count + 1));
                assert(rest[count] == queue[count + 1]);
            }
            assert(clearing_from(state, queue, effects, count + 1, reached));
        }
    }
}

/// A clearing that is under way ends as [`cleared`] says.
proof fn lemma_sweep_trace(
    origin: RegistryModel,
    queue: Seq<u64>,
    count: int,
    start: Move,
    answers: Seq<AnswerView>,
    now: u64,
)
    requires
        clearing(origin, queue, count, start),
    ensures
        follow(start, answers, now).1.next is Reply ==> cleared(
            origin,
            queue,
            follow(start, answers, now),
        ),
    decreases answers.len(),
{
    if answers.len() == 0 || !(start.1.next is Ask) || !start.0.expects(answers[0]) {
        if start.1.next is Reply {
            assert(queue.take(count) =~= queue);
        }
    } else {
        let state = start.0;
        let answer = answers[0];
        let (after, step) = state.deliver(answer, now);
        let next = (after, StepView { effects: start.1.effects + step.effects, next: step.next });
        lemma_emitted_add(start.1.effects, step.effects);
        let rest = queue.skip(count);
        let release = Seq::<EffectView>::empty().push(
            EffectView::ReleaseScript { script_id: script_under_way(state.pending) },
        );
        lemma_emitted_release(Seq::empty(), script_under_way(state.pending));
        let asked_to_unload = state.pending is UnloadProbe && answer == AnswerView::Detached(false);
        if asked_to_unload {
            assert(after.registry == state.registry);
            assert(emitted(next.1.effects) =~= disposals(queue.take(count)));
            assert(clearing(origin, queue, count, next));
            lemma_sweep_trace(origin, queue, count, next, answers.drop_first(), now);
        } else {
            assert((after, step) == state.sweep(rest, release));
            lemma_sweep_round(state, rest, release);
            let more = choose|more: int| clearing_from(state, rest, release, more, (after, step));
            assert(queue.take(count) + rest.take(more) =~= queue.take(count + more));
            assert(disposals(queue.take(count)) + disposals(rest.take(more)) =~= disposals(
                queue.take(count + more),
            ));
            assert(emitted(next.1.effects) =~= disposals(queue.take(count + more)));
            assert forall|i: int| 0 <= i < count + more implies {
                !after.registry.sessions.contains_key(#[trigger] queue[i])
            } by {
                if i >= count {
                    assert(queue[i] == rest[i - count]);
                }
            }
            assert(others_untouched(origin, after.registry, queue)) by {
                assert forall|other: u64|
                    !queue.contains(other) && #[trigger] origin.sessions.contains_key(
                        other,
                    ) implies after.registry.sessions.contains_key(other)
                    && after.registry.sessions[other] == origin.sessions[other] by {
                    assert(state.registry.sessions.contains_key(other));
                    if rest.contains(other) {
                        let j = choose|j: int| 0 <= j < rest.len() && rest[j] == other;
                        assert(queue[count + j] == other);
                    }
                }
            }
            if count + more < queue.len() {
                assert(rest.skip(more) =~= queue.skip(count + more));
                assert(rest[more] == queue[count + more]);
            }
            assert(clearing(origin, queue, count + more, next));
            lemma_sweep_trace(origin, queue, count + more, next, answers.drop_first(), now);
        }
    }
}

/// Whether every answer of `answers` is of the kind that is due when it
/// arrives, as far as the operation goes.
pub open spec fn on_protocol(start: Move, answers: Seq<AnswerView>, now: u64) -> bool
    decreases answers.len(),
{
    if answers.len() == 0 || !(start.1.next is Ask) {
        true
    } else {
        let (state, step) = start.0.deliver(answers[0], now);
        &&& start.0.expects(answers[0])
        &&& on_protocol(
            (state, StepView { effects: start.1.effects + step.effects, next: step.next }),
            answers.drop_first(),
            now,
        )
    }
}

/// How many answers a detach that is under way may still need.
spec fn detach_budget(state: ContextModel) -> int {
    match state.pending {
        PendingModel::UnloadProbe { session_id, .. } => 2 * listed(state, session_id) + 4,
        PendingModel::UnloadCall { session_id, .. } => 2 * listed(state, session_id) + 3,
        PendingModel::Detach { .. } => 2,
        PendingModel::DetachProbe { .. } => 1,
        _ => 0,
    }
}

/// How many scripts the session lists.
spec fn listed(state: ContextModel, session_id: u64) -> int {
    state.registry.scripts_of(session_id).len() as int
}

/// A round of a requested detach leaves less to do than there was.
proof fn lemma_teardown_budget(state: ContextModel, session_id: u64, effects: Seq<EffectView>)
    requires
        state.registry.consistent(),
    ensures
        ({
            let round = state.teardown(session_id, effects);
            &&& round.1.next is Ask ==> detaching(round.0.pending, session_id)
            &&& round.1.next is Ask ==> detach_budget(round.0) <= 2 * listed(state, session_id) + 2
        }),
{
    let ids = state.registry.scripts_of(session_id);
    if ids.len() > 0 {
        let script_id = ids[0];
        assert(state.registry.scripts.contains_key(
            state.registry.sessions[session_id].script_ids[0],
        ));
        assert(ids.contains(script_id));
        lemma_strike_shorter(ids, script_id);
    }
}

/// A detach that is under way replies once it has got as many answers as
/// its budget says.
proof fn lemma_detach_ends(start: Move, session_id: u64, answers: Seq<AnswerView>, now: u64)
    requires
        start.0.coherent(),
        start.1.next is Ask ==> detaching(start.0.pending, session_id),
        on_protocol(start, answers, now),
        start.1.next is Ask ==> answers.len() >= detach_budget(start.0),
    ensures
        follow(start, answers, now).1.next is Reply,
    decreases answers.len(),
{
    if start.1.next is Ask {
        let state = start.0;
        let answer = answers[0];
        let (after, step) = state.deliver(answer, now);
        let next = (after, StepView { effects: start.1.effects + step.effects, next: step.next });
        law_deliver_keeps_registry_consistent(state, answer, now);
        match state.pending {
            PendingModel::UnloadProbe { script_id, .. } => {
                lemma_teardown_budget(
                    state,
                    session_id,
                    Seq::<EffectView>::empty().push(EffectView::ReleaseScript { script_id }),
                );
            },
            PendingModel::UnloadCall { script_id, .. } => {
                lemma_teardown_budget(
                    state,
                    session_id,
                    Seq::<EffectView>::empty().push(EffectView::ReleaseScript { script_id }),
                );
            },
            _ => {},
        }
        lemma_detach_ends(next, session_id, answers.drop_first(), now);
    }
}

/// A `detach` always comes to an end: however the toolkit answers, as long
/// as its answers are of the kind that is due, two answers for every
/// script of the session and two more are enough for the reply.
pub proof fn law_detach_always_completes(
    state: ContextModel,
    session_id: u64,
    answers: Seq<AnswerView>,
    now: u64,
)
    requires
        state.coherent(),
        on_protocol(state.detach(session_id), answers, now),
        answers.len() >= 2 * state.registry.scripts_of(session_id).len() + 2,
    ensures
        follow(state.detach(session_id), answers, now).1.next is Reply,
{
    law_begin_keeps_registry_consistent(state, OperationModel::Detach { session_id }, now);
    lemma_teardown_budget(state, session_id, Seq::empty());
    lemma_detach_ends(state.detach(session_id), session_id, answers, now);
}

/// How many scripts are registered.
spec fn script_count(state: ContextModel) -> int {
    state.registry.scripts.dom().len() as int
}

/// Whether the query under way belongs to a health poll.
spec fn polling(pending: PendingModel) -> bool {
    match pending {
        PendingModel::PollScan { queue, .. } => queue.len() > 0,
        PendingModel::UnloadProbe { purpose: PurposeModel::Sweep { .. }, .. } => true,
        PendingModel::UnloadCall { purpose: PurposeModel::Sweep { .. }, .. } => true,
        _ => false,
    }
}

/// How many answers a health poll that is under way may still need.
spec fn poll_budget(state: ContextModel) -> int {
    match state.pending {
        PendingModel::PollScan { queue, .. } => queue.len() + 2 * script_count(state),
        PendingModel::UnloadProbe { .. } => 2 * script_count(state) + 2,
        PendingModel::UnloadCall { .. } => 2 * script_count(state) + 1,
        _ => 0,
    }
}

/// A run of the poller's clearing ends in a reply, or in a query with less
/// to do than two answers for every script that was registered.
proof fn lemma_sweep_budget(state: ContextModel, queue: Seq<u64>, effects: Seq<EffectView>)
    requires
        state.registry.consistent(),
    ensures
        ({
            let round = state.sweep(queue, effects);
            &&& round.1.next is Ask ==> polling(round.0.pending)
            &&& round.1.next is Ask ==> poll_budget(round.0) <= 2 * script_count(state)
        }),
    decreases queue.len(),
{
    if queue.len() > 0 {
        let session_id = queue[0];
        if state.registry.scripts_of(session_id).len() > 0 {
            let script_id = state.registry.sessions[session_id].script_ids[0];
            assert(state.registry.scripts.contains_key(script_id));
            let after = state.registry.remove_script(script_id);
            assert(after.scripts.dom() =~= state.registry.scripts.dom().remove(script_id));
        } else {
            state.registry.lemma_remove_session_consistent(session_id);
            lemma_sweep_budget(
                state.with_registry(state.registry.remove_session(session_id)),
                queue.drop_first(),
                effects + swept_effects(session_id),
            );
        }
    }
}

/// A health poll that is under way replies once it has got as many
/// answers as its budget says.
proof fn lemma_poll_ends(start: Move, answers: Seq<AnswerView>, now: u64)
    requires
        start.0.coherent(),
        start.1.next is Ask ==> polling(start.0.pending),
        on_protocol(start, answers, now),
        start.1.next is Ask ==> answers.len() >= poll_budget(start.0),
    ensures
        follow(start, answers, now).1.next is Reply,
    decreases answers.len(),
{
    if start.1.next is Ask {
        let state = start.0;
        let answer = answers[0];
        let (after, step) = state.deliver(answer, now);
        let next = (after, StepView { effects: start.1.effects + step.effects, next: step.next });
        law_deliver_keeps_registry_consistent(state, answer, now);
        match state.pending {
            PendingModel::PollScan { queue, found } => {
                lemma_sweep_budget(state, found, Seq::empty());
                lemma_sweep_budget(state, found.push(queue[0]), Seq::empty());
            },
            PendingModel::UnloadProbe { script_id, purpose: PurposeModel::Sweep { queue }, .. } => {
                lemma_sweep_budget(
                    state,
                    queue,
                    Seq::<EffectView>::empty().push(EffectView::ReleaseScript { script_id }),
                );
            },
            PendingModel::UnloadCall { script_id, purpose: PurposeModel::Sweep { queue }, .. } => {
                lemma_sweep_budget(
                    state,
                    queue,
                    Seq::<EffectView>::empty().push(EffectView::ReleaseScript { script_id }),
                );
            },
            _ => {},
        }
        lemma_poll_ends(next, answers.drop_first(), now);
    }
}

/// A health poll always comes to an end: however the toolkit answers, as
/// long as its answers are of the kind that is due, one answer for every
/// session asked about and two for every registered script are enough.
pub proof fn law_poll_always_completes(
    state: ContextModel,
    order: Seq<u64>,
    answers: Seq<AnswerView>,
    now: u64,
)
    requires
        state.coherent(),
        on_protocol(state.poll_detached_sessions(order), answers, now),
        answers.len() >= order.len() + 2 * state.registry.scripts.dom().len(),
    ensures
        follow(state.poll_detached_sessions(order), answers, now).1.next is Reply,
{
    law_begin_keeps_registry_consistent(state, OperationModel::Poll { order }, now);
    lemma_sweep_budget(state, Seq::empty(), Seq::empty());
    lemma_poll_ends(state.poll_detached_sessions(order), answers, now);
}

} // verus!
