use carf::context::FridaContext;
use carf::protocol::{Answer, DetachReason, Effect, Next, Notice, Query, Reply, Step};

fn actor() -> FridaContext {
    FridaContext::new(Ok("send('ready');".to_string()))
}

fn attach(ctx: &mut FridaContext, pid: u32) -> u64 {
    let mut step = ctx.attach("local", pid);
    for answer in [
        Answer::Completed(Ok(())),
        Answer::Detached(false),
        Answer::Completed(Ok(())),
        Answer::Completed(Ok(())),
        Answer::Completed(Ok(())),
    ] {
        assert!(matches!(step.next, Next::Ask(_)));
        step = ctx.deliver(answer, 0);
    }
    match step.next {
        Next::Reply(Reply::Attached(Ok(info))) => info.session_id,
        other => panic!("attach failed: {:?}", other),
    }
}

/// Runs a poll against a toolkit in which the sessions in `gone` are
/// detached; returns the queries and effects in order.
fn poll(ctx: &mut FridaContext, gone: &[u64]) -> (Vec<Query>, Vec<Effect>) {
    let mut queries = Vec::new();
    let mut effects = Vec::new();
    let mut step: Step = ctx.poll_detached_sessions();
    loop {
        effects.extend(step.effects);
        match step.next {
            Next::Reply(reply) => {
                assert_eq!(reply, Reply::Polled);
                assert!(ctx.is_idle());
                return (queries, effects);
            }
            Next::Ask(query) => {
                let answer = match &query {
                    Query::IsDetached { session_id } => Answer::Detached(gone.contains(session_id)),
                    Query::UnloadScript { .. } => Answer::Completed(Ok(())),
                    other => panic!("the poller asked {:?}", other),
                };
                queries.push(query);
                assert!(ctx.accepts(&answer));
                step = ctx.deliver(answer, 0);
            }
        }
    }
}

#[test]
fn a_poll_without_sessions_asks_nothing() {
    let mut ctx = actor();
    let (queries, effects) = poll(&mut ctx, &[]);
    assert!(queries.is_empty());
    assert!(effects.is_empty());
}

#[test]
fn a_poll_leaves_attached_sessions_alone() {
    let mut ctx = actor();
    attach(&mut ctx, 1);
    attach(&mut ctx, 2);
    let (queries, effects) = poll(&mut ctx, &[]);
    assert_eq!(queries.len(), 2);
    assert!(queries.contains(&Query::IsDetached { session_id: 1 }));
    assert!(queries.contains(&Query::IsDetached { session_id: 2 }));
    assert!(effects.is_empty());
    assert_eq!(ctx.registry().session_count(), 2);
    assert_eq!(ctx.registry().script_count(), 2);
}

#[test]
fn a_poll_clears_a_detached_session_and_its_scripts() {
    let mut ctx = actor();
    attach(&mut ctx, 1);
    attach(&mut ctx, 2);
    attach(&mut ctx, 3);
    let (queries, effects) = poll(&mut ctx, &[2]);
    // three sessions are asked about, then the script of session 2 is
    // unloaded, for which the session is asked about once more
    assert_eq!(queries.len(), 4);
    assert_eq!(queries[3], Query::IsDetached { session_id: 2 });
    assert_eq!(
        effects,
        vec![
            Effect::ReleaseScript { script_id: 2 },
            Effect::ReleaseSession { session_id: 2 },
            Effect::Emit(Notice::SessionDetached { session_id: 2, reason: DetachReason::Disposed }),
        ]
    );
    assert!(ctx.registry().has_session(1));
    assert!(!ctx.registry().has_session(2));
    assert!(ctx.registry().has_session(3));
    assert!(!ctx.registry().has_script(2));
    assert_eq!(ctx.registry().script_count(), 2);
}

#[test]
fn a_poll_clears_every_detached_session_once() {
    let mut ctx = actor();
    attach(&mut ctx, 1);
    attach(&mut ctx, 2);
    let (_, effects) = poll(&mut ctx, &[1, 2]);
    let emitted: Vec<&Effect> =
        effects.iter().filter(|effect| matches!(effect, Effect::Emit(_))).collect();
    assert_eq!(emitted.len(), 2);
    assert!(effects.contains(&Effect::Emit(Notice::SessionDetached {
        session_id: 1,
        reason: DetachReason::Disposed
    })));
    assert!(effects.contains(&Effect::Emit(Notice::SessionDetached {
        session_id: 2,
        reason: DetachReason::Disposed
    })));
    assert_eq!(ctx.registry().session_count(), 0);
    assert_eq!(ctx.registry().script_count(), 0);
    let (queries, effects) = poll(&mut ctx, &[1, 2]);
    assert!(queries.is_empty());
    assert!(effects.is_empty());
}

#[test]
fn a_poll_clears_a_session_without_scripts() {
    let mut ctx = actor();
    attach(&mut ctx, 1);
    let mut step = ctx.unload_script(1);
    assert!(matches!(step.next, Next::Ask(_)));
    step = ctx.deliver(Answer::Detached(false), 0);
    assert!(matches!(step.next, Next::Ask(_)));
    ctx.deliver(Answer::Completed(Ok(())), 0);
    let (queries, effects) = poll(&mut ctx, &[1]);
    assert_eq!(queries, vec![Query::IsDetached { session_id: 1 }]);
    assert_eq!(
        effects,
        vec![
            Effect::ReleaseSession { session_id: 1 },
            Effect::Emit(Notice::SessionDetached { session_id: 1, reason: DetachReason::Disposed }),
        ]
    );
    assert_eq!(ctx.registry().session_count(), 0);
}
