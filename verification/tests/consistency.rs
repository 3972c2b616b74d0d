use carf::context::FridaContext;
use carf::protocol::{Answer, Next, Query, Reply, Step};

fn actor() -> FridaContext {
    FridaContext::new(Ok("send('ready');".to_string()))
}

/// Every script that a session lists points back to it, no script is
/// listed twice, and no script is registered that no session lists.
fn assert_consistent(ctx: &FridaContext) {
    let registry = ctx.registry();
    let mut sessions = registry.session_ids();
    sessions.sort();
    let mut listed = 0;
    for (i, session_id) in sessions.iter().enumerate() {
        if i > 0 {
            assert!(sessions[i - 1] < *session_id);
        }
        assert!(registry.has_session(*session_id));
        assert!(*session_id >= 1 && *session_id < registry.next_session_id());
        let scripts = registry.script_ids(*session_id);
        for (j, script_id) in scripts.iter().enumerate() {
            assert_eq!(registry.session_of(*script_id), Some(*session_id));
            assert!(*script_id >= 1 && *script_id < registry.next_script_id());
            assert!(!scripts[..j].contains(script_id));
        }
        listed += scripts.len();
    }
    assert_eq!(sessions.len(), registry.session_count());
    assert_eq!(listed, registry.script_count());
}

/// Answers every query from `script`, which maps the running number of the
/// query to the answer, and checks the registry after every step.
fn drive(ctx: &mut FridaContext, first: Step, script: &dyn Fn(usize, &Query) -> Answer) -> Reply {
    let mut step = first;
    let mut asked = 0;
    loop {
        assert_consistent(ctx);
        match step.next {
            Next::Reply(reply) => return reply,
            Next::Ask(query) => {
                let answer = script(asked, &query);
                asked += 1;
                assert!(ctx.accepts(&answer));
                step = ctx.deliver(answer, 0);
            }
        }
    }
}

fn willing(_: usize, query: &Query) -> Answer {
    match query {
        Query::IsDetached { .. } => Answer::Detached(false),
        Query::Version => Answer::Text("1".to_string()),
        Query::EnumerateDevices => Answer::Devices(vec![]),
        Query::EnumerateProcesses { .. } => Answer::Processes(Ok(vec![])),
        Query::Spawn { .. } => Answer::Spawned(Ok(1)),
        _ => Answer::Completed(Ok(())),
    }
}

fn unwilling(fail_at: usize) -> impl Fn(usize, &Query) -> Answer {
    move |asked, query| {
        if asked < fail_at {
            return willing(asked, query);
        }
        match query {
            Query::IsDetached { .. } => Answer::Detached(true),
            Query::Version => Answer::Text("1".to_string()),
            Query::EnumerateDevices => Answer::Devices(vec![]),
            Query::EnumerateProcesses { .. } => Answer::Processes(Err("no".to_string())),
            Query::Spawn { .. } => Answer::Spawned(Err("no".to_string())),
            _ => Answer::Completed(Err("no".to_string())),
        }
    }
}

#[test]
fn the_registry_stays_consistent_when_everything_succeeds() {
    let mut ctx = actor();
    for pid in 1..4 {
        let first = ctx.attach("local", pid);
        drive(&mut ctx, first, &willing);
    }
    let first = ctx.load_default_script(2);
    drive(&mut ctx, first, &willing);
    let first = ctx.load_default_script(2);
    drive(&mut ctx, first, &willing);
    let first = ctx.unload_script(4);
    drive(&mut ctx, first, &willing);
    let first = ctx.detach(2);
    drive(&mut ctx, first, &willing);
    let first = ctx.poll_detached_sessions();
    drive(&mut ctx, first, &willing);
    assert_eq!(ctx.registry().session_count(), 2);
    assert_eq!(ctx.registry().script_count(), 2);
    assert_consistent(&ctx);
}

#[test]
fn the_registry_stays_consistent_when_the_toolkit_fails_at_any_point() {
    for fail_at in 0..8 {
        let mut ctx = actor();
        let first = ctx.attach("local", 1);
        drive(&mut ctx, first, &willing);
        let first = ctx.load_default_script(1);
        drive(&mut ctx, first, &willing);

        let first = ctx.attach("local", 2);
        drive(&mut ctx, first, &unwilling(fail_at));
        let first = ctx.load_default_script(1);
        drive(&mut ctx, first, &unwilling(fail_at));
        let first = ctx.unload_script(1);
        drive(&mut ctx, first, &unwilling(fail_at));
        let first = ctx.detach(1);
        drive(&mut ctx, first, &unwilling(fail_at));
        let first = ctx.poll_detached_sessions();
        drive(&mut ctx, first, &unwilling(fail_at));
        let first = ctx.detach(1);
        drive(&mut ctx, first, &unwilling(fail_at));
        assert_consistent(&ctx);
    }
}

#[test]
fn a_failed_attach_leaves_no_session_behind() {
    for fail_at in 0..5 {
        let mut ctx = actor();
        let first = ctx.attach("local", 1);
        drive(&mut ctx, first, &willing);
        let first = ctx.attach("local", 2);
        let reply = drive(&mut ctx, first, &unwilling(fail_at));
        assert!(matches!(reply, Reply::Attached(Err(_))), "fail_at {}: {:?}", fail_at, reply);
        assert_eq!(ctx.registry().session_ids(), vec![1]);
        assert_eq!(ctx.registry().script_ids(1), vec![1]);
        assert_eq!(ctx.registry().script_count(), 1);
    }
}
