use carf::context::FridaContext;
use carf::error::{HandleKind, ServiceError};
use carf::protocol::{Answer, DetachReason, Effect, Next, Notice, Query, Reply, Step};
use carf::types::{ProcessInfo, ScriptInfo, SessionInfo};

const AGENT: &str = "send('ready');";

fn actor() -> FridaContext {
    FridaContext::new(Ok(AGENT.to_string()))
}

/// Feeds `answers` to the actor until the operation replies; returns every
/// query that was asked, every effect in order, and the reply.
fn drive(
    ctx: &mut FridaContext,
    first: Step,
    answers: Vec<Answer>,
) -> (Vec<Query>, Vec<Effect>, Reply) {
    let mut queries = Vec::new();
    let mut effects = Vec::new();
    let mut step = first;
    let mut answers = answers.into_iter();
    loop {
        effects.extend(step.effects);
        match step.next {
            Next::Reply(reply) => {
                assert!(ctx.is_idle());
                assert!(answers.next().is_none(), "answers left over");
                return (queries, effects, reply);
            }
            Next::Ask(query) => {
                assert!(!ctx.is_idle());
                queries.push(query);
                let answer = answers.next().expect("the actor asked more than was scripted");
                assert!(ctx.accepts(&answer));
                step = ctx.deliver(answer, 0);
            }
        }
    }
}

fn attach_ok(ctx: &mut FridaContext, device: &str, pid: u32) -> SessionInfo {
    let first = ctx.attach(device, pid);
    let (_, _, reply) = drive(
        ctx,
        first,
        vec![
            Answer::Completed(Ok(())),
            Answer::Detached(false),
            Answer::Completed(Ok(())),
            Answer::Completed(Ok(())),
            Answer::Completed(Ok(())),
        ],
    );
    match reply {
        Reply::Attached(Ok(info)) => info,
        other => panic!("attach failed: {:?}", other),
    }
}

fn ping() -> serde_json::Value {
    let mut map = serde_json::Map::new();
    map.insert("type".to_string(), serde_json::Value::String("ping".to_string()));
    serde_json::Value::Object(map)
}

#[test]
fn a_new_actor_is_idle_and_empty() {
    let ctx = actor();
    assert!(ctx.is_idle());
    assert_eq!(ctx.registry().session_count(), 0);
    assert_eq!(ctx.registry().script_count(), 0);
    assert_eq!(ctx.registry().next_session_id(), 1);
    assert_eq!(ctx.registry().next_script_id(), 1);
}

#[test]
fn attach_asks_the_toolkit_in_order_and_registers_both_ids() {
    let mut ctx = actor();
    let first = ctx.attach("local", 1234);
    let (queries, effects, reply) = drive(
        &mut ctx,
        first,
        vec![
            Answer::Completed(Ok(())),
            Answer::Detached(false),
            Answer::Completed(Ok(())),
            Answer::Completed(Ok(())),
            Answer::Completed(Ok(())),
        ],
    );
    assert_eq!(
        queries,
        vec![
            Query::Attach { device_id: "local".to_string(), pid: 1234, session_id: 1 },
            Query::IsDetached { session_id: 1 },
            Query::CreateScript {
                session_id: 1,
                script_id: 1,
                name: "carf-agent".to_string(),
                source: AGENT.to_string(),
            },
            Query::SubscribeMessages { session_id: 1, script_id: 1 },
            Query::LoadScript { script_id: 1 },
        ]
    );
    assert_eq!(
        effects,
        vec![Effect::Emit(Notice::SessionAttached {
            session_id: 1,
            script_id: 1,
            device_id: "local".to_string(),
            pid: 1234,
        })]
    );
    assert_eq!(reply, Reply::Attached(Ok(SessionInfo { session_id: 1, script_id: 1 })));
    assert!(ctx.registry().has_session(1));
    assert!(ctx.registry().has_script(1));
    assert_eq!(ctx.registry().session_of(1), Some(1));
    assert_eq!(ctx.registry().script_ids(1), vec![1]);
    assert_eq!(ctx.registry().target_of(1), Some(("local".to_string(), 1234)));
}

#[test]
fn attach_post_detach_post_end_to_end() {
    let mut ctx = actor();
    let info = attach_ok(&mut ctx, "local", 1234);
    assert_eq!(info, SessionInfo { session_id: 1, script_id: 1 });

    let first = ctx.script_post(1, &ping(), None);
    let (queries, effects, reply) =
        drive(&mut ctx, first, vec![Answer::Detached(false), Answer::Completed(Ok(()))]);
    assert_eq!(
        queries,
        vec![
            Query::IsDetached { session_id: 1 },
            Query::Post { script_id: 1, message: "{\"type\":\"ping\"}".to_string(), data: None },
        ]
    );
    assert!(effects.is_empty());
    assert_eq!(reply, Reply::Unit(Ok(())));

    let first = ctx.detach(1);
    let (queries, effects, reply) = drive(
        &mut ctx,
        first,
        vec![Answer::Detached(false), Answer::Completed(Ok(())), Answer::Completed(Ok(()))],
    );
    assert_eq!(
        queries,
        vec![
            Query::IsDetached { session_id: 1 },
            Query::UnloadScript { script_id: 1 },
            Query::DetachSession { session_id: 1 },
        ]
    );
    assert_eq!(
        effects,
        vec![
            Effect::ReleaseScript { script_id: 1 },
            Effect::Emit(Notice::SessionDetached { session_id: 1, reason: DetachReason::User }),
            Effect::ReleaseSession { session_id: 1 },
        ]
    );
    assert_eq!(reply, Reply::Unit(Ok(())));

    let first = ctx.script_post(1, &ping(), None);
    let (queries, effects, reply) = drive(&mut ctx, first, vec![]);
    assert!(queries.is_empty());
    assert!(effects.is_empty());
    assert_eq!(reply, Reply::Unit(Err(ServiceError::UnknownHandle(HandleKind::Script))));
}

#[test]
fn attach_then_detach_leaves_nothing_registered() {
    let mut ctx = actor();
    let first = ctx.list_processes("local", 10);
    let listed = vec![ProcessInfo { pid: 7, name: "init".to_string() }];
    let (_, _, _) = {
        let mut step = first;
        assert!(matches!(step.next, Next::Ask(_)));
        step = ctx.deliver(Answer::Processes(Ok(listed)), 10);
        (0, 0, step)
    };
    let info = attach_ok(&mut ctx, "local", 99);
    let first = ctx.detach(info.session_id);
    let (_, _, reply) = drive(
        &mut ctx,
        first,
        vec![Answer::Detached(false), Answer::Completed(Ok(())), Answer::Completed(Ok(()))],
    );
    assert_eq!(reply, Reply::Unit(Ok(())));
    assert_eq!(ctx.registry().session_count(), 0);
    assert_eq!(ctx.registry().script_count(), 0);
    // the cache was not touched: the list is still served
    let step = ctx.list_processes("local", 11);
    assert_eq!(
        step.next,
        Next::Reply(Reply::Processes(Ok(vec![ProcessInfo { pid: 7, name: "init".to_string() }])))
    );
}

#[test]
fn detach_of_an_unknown_session_changes_nothing() {
    let mut ctx = actor();
    attach_ok(&mut ctx, "local", 1);
    let step = ctx.detach(42);
    assert!(step.effects.is_empty());
    assert_eq!(
        step.next,
        Next::Reply(Reply::Unit(Err(ServiceError::UnknownHandle(HandleKind::Session))))
    );
    assert!(ctx.is_idle());
    assert_eq!(ctx.registry().session_count(), 1);
    assert_eq!(ctx.registry().script_count(), 1);
    assert_eq!(ctx.registry().script_ids(1), vec![1]);
}

#[test]
fn ids_count_up_and_are_not_reused() {
    let mut ctx = actor();
    let a = attach_ok(&mut ctx, "local", 1);
    let b = attach_ok(&mut ctx, "local", 2);
    assert_eq!(a, SessionInfo { session_id: 1, script_id: 1 });
    assert_eq!(b, SessionInfo { session_id: 2, script_id: 2 });
    let first = ctx.detach(1);
    drive(
        &mut ctx,
        first,
        vec![Answer::Detached(false), Answer::Completed(Ok(())), Answer::Completed(Ok(()))],
    );
    let c = attach_ok(&mut ctx, "local", 3);
    assert_eq!(c, SessionInfo { session_id: 3, script_id: 3 });
    assert_eq!(ctx.registry().session_count(), 2);
}

#[test]
fn attach_rolls_back_when_the_script_does_not_load() {
    let mut ctx = actor();
    let first = ctx.attach("usb", 5);
    let (queries, effects, reply) = drive(
        &mut ctx,
        first,
        vec![
            Answer::Completed(Ok(())),
            Answer::Detached(false),
            Answer::Completed(Ok(())),
            Answer::Completed(Ok(())),
            Answer::Completed(Err("Failed to load the script".to_string())),
        ],
    );
    assert_eq!(queries.len(), 5);
    assert_eq!(
        effects,
        vec![Effect::ReleaseScript { script_id: 1 }, Effect::ReleaseSession { session_id: 1 }]
    );
    assert_eq!(
        reply,
        Reply::Attached(Err(ServiceError::DeviceError {
            message: "Failed to load the script".to_string()
        }))
    );
    assert_eq!(ctx.registry().session_count(), 0);
    assert_eq!(ctx.registry().script_count(), 0);
    // the ids that were spent stay spent
    assert_eq!(ctx.registry().next_session_id(), 2);
    assert_eq!(ctx.registry().next_script_id(), 2);
}

#[test]
fn attach_rolls_back_when_the_script_cannot_be_created() {
    let mut ctx = actor();
    let first = ctx.attach("usb", 5);
    let (_, effects, reply) = drive(
        &mut ctx,
        first,
        vec![
            Answer::Completed(Ok(())),
            Answer::Detached(false),
            Answer::Completed(Err("Failed to create the script".to_string())),
        ],
    );
    assert_eq!(effects, vec![Effect::ReleaseSession { session_id: 1 }]);
    assert_eq!(
        reply,
        Reply::Attached(Err(ServiceError::DeviceError {
            message: "Failed to create the script".to_string()
        }))
    );
    assert_eq!(ctx.registry().session_count(), 0);
}

#[test]
fn attach_reports_the_toolkits_refusal() {
    let mut ctx = actor();
    let first = ctx.attach("usb", 5);
    let (queries, effects, reply) =
        drive(&mut ctx, first, vec![Answer::Completed(Err("Failed to attach".to_string()))]);
    assert_eq!(queries.len(), 1);
    assert!(effects.is_empty());
    assert_eq!(
        reply,
        Reply::Attached(Err(ServiceError::DeviceError { message: "Failed to attach".to_string() }))
    );
    assert_eq!(ctx.registry().next_session_id(), 1);
}

#[test]
fn attach_with_a_missing_agent_takes_the_session_back() {
    let stand_in = "// __CARF_AGENT_MISSING__\n// Run: bun run compile\n";
    let mut ctx = FridaContext::new(Ok(stand_in.to_string()));
    let first = ctx.attach("local", 5);
    let (queries, effects, reply) = drive(&mut ctx, first, vec![Answer::Completed(Ok(()))]);
    assert_eq!(queries.len(), 1);
    assert_eq!(effects, vec![Effect::ReleaseSession { session_id: 1 }]);
    assert_eq!(reply, Reply::Attached(Err(ServiceError::AssetMissing)));
    assert_eq!(ctx.registry().session_count(), 0);
}

#[test]
fn string_arguments_with_nul_are_rejected_before_any_call() {
    let mut ctx = actor();
    let bad = ServiceError::InputValidation { label: "device_id".to_string() };

    let step = ctx.list_processes("lo\0cal", 0);
    assert!(step.effects.is_empty());
    assert_eq!(step.next, Next::Reply(Reply::Processes(Err(bad.clone()))));

    let step = ctx.attach("\0", 1);
    assert_eq!(step.next, Next::Reply(Reply::Attached(Err(bad.clone()))));

    let step = ctx.resume("a\0", 1);
    assert_eq!(step.next, Next::Reply(Reply::Unit(Err(bad.clone()))));

    let step = ctx.kill("a\0", 1);
    assert_eq!(step.next, Next::Reply(Reply::Unit(Err(bad.clone()))));

    let step = ctx.spawn("a\0", "/bin/ls".to_string(), None);
    assert_eq!(step.next, Next::Reply(Reply::Spawned(Err(bad))));

    let step = ctx.spawn("local", "/bin/\0ls".to_string(), None);
    assert_eq!(
        step.next,
        Next::Reply(Reply::Spawned(Err(ServiceError::InputValidation {
            label: "program".to_string()
        })))
    );

    let step = ctx.spawn(
        "local",
        "/bin/ls".to_string(),
        Some(vec!["ls".to_string(), "-l".to_string(), "a\0b".to_string()]),
    );
    assert_eq!(
        step.next,
        Next::Reply(Reply::Spawned(Err(ServiceError::InputValidation {
            label: "argv[2]".to_string()
        })))
    );
    assert!(ctx.is_idle());
    assert_eq!(ctx.registry().session_count(), 0);
}

#[test]
fn list_processes_refuses_the_socket_device() {
    let mut ctx = actor();
    let step = ctx.list_processes("socket", 0);
    assert_eq!(step.next, Next::Reply(Reply::Processes(Err(ServiceError::UnsupportedDevice))));
    assert!(step.effects.is_empty());
}

fn list(ctx: &mut FridaContext, device: &str, now: u64) -> Step {
    ctx.list_processes(device, now)
}

fn two_processes() -> Vec<ProcessInfo> {
    vec![
        ProcessInfo { pid: 1, name: "init".to_string() },
        ProcessInfo { pid: 4321, name: "caf\u{e9}".to_string() },
    ]
}

#[test]
fn list_processes_serves_the_cache_within_the_time_to_live() {
    let mut ctx = actor();
    let step = list(&mut ctx, "local", 1_000);
    assert_eq!(step.next, Next::Ask(Query::EnumerateProcesses { device_id: "local".to_string() }));
    let step = ctx.deliver(Answer::Processes(Ok(two_processes())), 1_500);
    assert_eq!(step.next, Next::Reply(Reply::Processes(Ok(two_processes()))));

    // fetched at 1500: served up to 3499
    let step = list(&mut ctx, "local", 1_500);
    assert_eq!(step.next, Next::Reply(Reply::Processes(Ok(two_processes()))));
    let step = list(&mut ctx, "local", 3_499);
    assert_eq!(step.next, Next::Reply(Reply::Processes(Ok(two_processes()))));
    // a clock that runs behind counts as no time passed
    let step = list(&mut ctx, "local", 100);
    assert_eq!(step.next, Next::Reply(Reply::Processes(Ok(two_processes()))));
    // at 3500 the list is stale
    let step = list(&mut ctx, "local", 3_500);
    assert_eq!(step.next, Next::Ask(Query::EnumerateProcesses { device_id: "local".to_string() }));
    let step = ctx.deliver(Answer::Processes(Ok(vec![])), 3_600);
    assert_eq!(step.next, Next::Reply(Reply::Processes(Ok(vec![]))));
    let step = list(&mut ctx, "local", 3_700);
    assert_eq!(step.next, Next::Reply(Reply::Processes(Ok(vec![]))));
}

#[test]
fn list_processes_enumerates_for_another_device() {
    let mut ctx = actor();
    list(&mut ctx, "local", 0);
    ctx.deliver(Answer::Processes(Ok(two_processes())), 0);
    let step = list(&mut ctx, "usb", 1);
    assert_eq!(step.next, Next::Ask(Query::EnumerateProcesses { device_id: "usb".to_string() }));
    // a failed enumeration leaves the cache alone
    let step = ctx.deliver(Answer::Processes(Err("Failed to lookup device".to_string())), 2);
    assert_eq!(
        step.next,
        Next::Reply(Reply::Processes(Err(ServiceError::DeviceError {
            message: "Failed to lookup device".to_string()
        })))
    );
    let step = list(&mut ctx, "local", 3);
    assert_eq!(step.next, Next::Reply(Reply::Processes(Ok(two_processes()))));
}

#[test]
fn spawn_and_kill_drop_the_cache() {
    let mut ctx = actor();
    list(&mut ctx, "local", 0);
    ctx.deliver(Answer::Processes(Ok(two_processes())), 0);

    let step = ctx.spawn("local", "/bin/ls".to_string(), Some(vec!["ls".to_string()]));
    assert_eq!(
        step.next,
        Next::Ask(Query::Spawn {
            device_id: "local".to_string(),
            program: "/bin/ls".to_string(),
            argv: Some(vec!["ls".to_string()]),
        })
    );
    let step = ctx.deliver(Answer::Spawned(Ok(777)), 1);
    assert_eq!(step.next, Next::Reply(Reply::Spawned(Ok(777))));
    let step = list(&mut ctx, "local", 1);
    assert_eq!(step.next, Next::Ask(Query::EnumerateProcesses { device_id: "local".to_string() }));
    ctx.deliver(Answer::Processes(Ok(two_processes())), 1);

    let step = ctx.kill("local", 777);
    assert_eq!(step.next, Next::Ask(Query::Kill { device_id: "local".to_string(), pid: 777 }));
    let step = ctx.deliver(Answer::Completed(Err("Failed to kill PID (3) gone".to_string())), 2);
    assert_eq!(
        step.next,
        Next::Reply(Reply::Unit(Err(ServiceError::DeviceError {
            message: "Failed to kill PID (3) gone".to_string()
        })))
    );
    let step = list(&mut ctx, "local", 2);
    assert_eq!(step.next, Next::Ask(Query::EnumerateProcesses { device_id: "local".to_string() }));
}

#[test]
fn spawn_keeps_the_cache_when_an_argument_is_refused() {
    let mut ctx = actor();
    list(&mut ctx, "local", 0);
    ctx.deliver(Answer::Processes(Ok(two_processes())), 0);
    let step = ctx.spawn("local", "prog".to_string(), Some(vec!["a\0b".to_string()]));
    assert!(step.effects.is_empty());
    assert_eq!(
        step.next,
        Next::Reply(Reply::Spawned(Err(ServiceError::InputValidation {
            label: "argv[0]".to_string()
        })))
    );
    let step = list(&mut ctx, "local", 1);
    assert_eq!(step.next, Next::Reply(Reply::Processes(Ok(two_processes()))));

    // the first offender is named, and the cache is kept for each of them
    let step = ctx.spawn(
        "local",
        "prog".to_string(),
        Some(vec!["ok".to_string(), "\0".to_string(), "b\0".to_string()]),
    );
    assert_eq!(
        step.next,
        Next::Reply(Reply::Spawned(Err(ServiceError::InputValidation {
            label: "argv[1]".to_string()
        })))
    );
    let step = ctx.spawn("lo\0cal", "prog".to_string(), None);
    assert!(matches!(step.next, Next::Reply(Reply::Spawned(Err(_)))));
    let step = ctx.spawn("local", "pr\0g".to_string(), None);
    assert!(matches!(step.next, Next::Reply(Reply::Spawned(Err(_)))));
    let step = list(&mut ctx, "local", 2);
    assert_eq!(step.next, Next::Reply(Reply::Processes(Ok(two_processes()))));
}

#[test]
fn resume_keeps_the_cache() {
    let mut ctx = actor();
    list(&mut ctx, "local", 0);
    ctx.deliver(Answer::Processes(Ok(two_processes())), 0);
    let step = ctx.resume("local", 9);
    assert_eq!(step.next, Next::Ask(Query::Resume { device_id: "local".to_string(), pid: 9 }));
    let step = ctx.deliver(Answer::Completed(Ok(())), 1);
    assert_eq!(step.next, Next::Reply(Reply::Unit(Ok(()))));
    let step = list(&mut ctx, "local", 1);
    assert_eq!(step.next, Next::Reply(Reply::Processes(Ok(two_processes()))));
}

#[test]
fn detach_of_a_disposed_session_is_a_success() {
    let mut ctx = actor();
    attach_ok(&mut ctx, "local", 1);
    let first = ctx.detach(1);
    let (queries, effects, reply) = drive(
        &mut ctx,
        first,
        vec![
            Answer::Detached(true),
            Answer::Completed(Err("Failed to detach the current session".to_string())),
            Answer::Detached(true),
        ],
    );
    // a detached session is not asked to unload its script
    assert_eq!(
        queries,
        vec![
            Query::IsDetached { session_id: 1 },
            Query::DetachSession { session_id: 1 },
            Query::IsDetached { session_id: 1 },
        ]
    );
    assert_eq!(
        effects,
        vec![
            Effect::ReleaseScript { script_id: 1 },
            Effect::Emit(Notice::SessionDetached { session_id: 1, reason: DetachReason::Disposed }),
            Effect::ReleaseSession { session_id: 1 },
        ]
    );
    assert_eq!(reply, Reply::Unit(Ok(())));
    assert_eq!(ctx.registry().session_count(), 0);
    assert_eq!(ctx.registry().script_count(), 0);
}

#[test]
fn a_failed_detach_puts_the_session_back() {
    let mut ctx = actor();
    attach_ok(&mut ctx, "local", 1);
    let first = ctx.detach(1);
    let (_, effects, reply) = drive(
        &mut ctx,
        first,
        vec![
            Answer::Detached(false),
            Answer::Completed(Err("Failed to unload the script".to_string())),
            Answer::Completed(Err("Failed to detach the current session".to_string())),
            Answer::Detached(false),
        ],
    );
    // the unloading failure is swallowed, the script is gone for good
    assert_eq!(effects, vec![Effect::ReleaseScript { script_id: 1 }]);
    assert_eq!(
        reply,
        Reply::Unit(Err(ServiceError::DeviceError {
            message: "Failed to detach the current session".to_string()
        }))
    );
    assert!(ctx.registry().has_session(1));
    assert_eq!(ctx.registry().script_ids(1), Vec::<u64>::new());
    assert_eq!(ctx.registry().script_count(), 0);
    assert_eq!(ctx.registry().target_of(1), Some(("local".to_string(), 1)));
}

#[test]
fn load_default_script_adds_a_second_script() {
    let mut ctx = actor();
    attach_ok(&mut ctx, "local", 1);
    let first = ctx.load_default_script(1);
    let (queries, effects, reply) = drive(
        &mut ctx,
        first,
        vec![
            Answer::Detached(false),
            Answer::Completed(Ok(())),
            Answer::Completed(Ok(())),
            Answer::Completed(Ok(())),
        ],
    );
    assert_eq!(queries.len(), 4);
    assert!(effects.is_empty());
    assert_eq!(reply, Reply::ScriptLoaded(Ok(ScriptInfo { script_id: 2 })));
    assert_eq!(ctx.registry().script_ids(1), vec![1, 2]);
    assert_eq!(ctx.registry().session_of(2), Some(1));
}

#[test]
fn load_default_script_refuses_a_detached_session() {
    let mut ctx = actor();
    attach_ok(&mut ctx, "local", 1);
    let first = ctx.load_default_script(1);
    let (queries, effects, reply) = drive(&mut ctx, first, vec![Answer::Detached(true)]);
    assert_eq!(queries, vec![Query::IsDetached { session_id: 1 }]);
    assert!(effects.is_empty());
    assert_eq!(reply, Reply::ScriptLoaded(Err(ServiceError::SessionDetached)));
    assert_eq!(ctx.registry().script_ids(1), vec![1]);
    assert_eq!(ctx.registry().script_count(), 1);
    // no script id was spent
    assert_eq!(ctx.registry().next_script_id(), 2);
}

#[test]
fn load_default_script_refuses_an_unknown_session() {
    let mut ctx = actor();
    let step = ctx.load_default_script(3);
    assert_eq!(
        step.next,
        Next::Reply(Reply::ScriptLoaded(Err(ServiceError::UnknownHandle(HandleKind::Session))))
    );
}

#[test]
fn load_default_script_gives_up_a_script_that_cannot_be_subscribed() {
    let mut ctx = actor();
    attach_ok(&mut ctx, "local", 1);
    let first = ctx.load_default_script(1);
    let (_, effects, reply) = drive(
        &mut ctx,
        first,
        vec![
            Answer::Detached(false),
            Answer::Completed(Ok(())),
            Answer::Completed(Err("Failed to convert the string into CString".to_string())),
        ],
    );
    assert_eq!(effects, vec![Effect::ReleaseScript { script_id: 2 }]);
    assert_eq!(
        reply,
        Reply::ScriptLoaded(Err(ServiceError::DeviceError {
            message: "Failed to convert the string into CString".to_string()
        }))
    );
    assert_eq!(ctx.registry().script_ids(1), vec![1]);
    assert!(ctx.registry().has_session(1));
}

#[test]
fn load_default_script_fails_for_an_unusable_agent() {
    let mut ctx = FridaContext::new(Ok("  \n\t ".to_string()));
    let step = ctx.load_default_script(1);
    assert_eq!(step.next, Next::Reply(Reply::ScriptLoaded(Err(ServiceError::AssetEmpty))));

    let mut ctx =
        FridaContext::new(Err("invalid utf-8 sequence of 1 bytes from index 0".to_string()));
    let step = ctx.load_default_script(1);
    assert_eq!(
        step.next,
        Next::Reply(Reply::ScriptLoaded(Err(ServiceError::AssetUnreadable {
            detail: "invalid utf-8 sequence of 1 bytes from index 0".to_string()
        })))
    );

    let mut ctx = FridaContext::new(Ok("a\0b".to_string()));
    let step = ctx.load_default_script(1);
    assert_eq!(
        step.next,
        Next::Reply(Reply::ScriptLoaded(Err(ServiceError::InputValidation {
            label: "default_script".to_string()
        })))
    );
}

#[test]
fn unload_script_unloads_and_releases() {
    let mut ctx = actor();
    attach_ok(&mut ctx, "local", 1);
    let first = ctx.unload_script(1);
    let (queries, effects, reply) =
        drive(&mut ctx, first, vec![Answer::Detached(false), Answer::Completed(Ok(()))]);
    assert_eq!(
        queries,
        vec![Query::IsDetached { session_id: 1 }, Query::UnloadScript { script_id: 1 }]
    );
    assert_eq!(effects, vec![Effect::ReleaseScript { script_id: 1 }]);
    assert_eq!(reply, Reply::Unit(Ok(())));
    assert!(ctx.registry().has_session(1));
    assert!(!ctx.registry().has_script(1));
    assert_eq!(ctx.registry().script_ids(1), Vec::<u64>::new());
}

#[test]
fn unload_script_reports_a_failure_and_still_releases() {
    let mut ctx = actor();
    attach_ok(&mut ctx, "local", 1);
    let first = ctx.unload_script(1);
    let (_, effects, reply) = drive(
        &mut ctx,
        first,
        vec![
            Answer::Detached(false),
            Answer::Completed(Err("Failed to unload the script".to_string())),
        ],
    );
    assert_eq!(effects, vec![Effect::ReleaseScript { script_id: 1 }]);
    assert_eq!(
        reply,
        Reply::Unit(Err(ServiceError::DeviceError {
            message: "Failed to unload the script".to_string()
        }))
    );
    assert!(!ctx.registry().has_script(1));
}

#[test]
fn unload_script_skips_the_toolkit_for_a_detached_session() {
    let mut ctx = actor();
    attach_ok(&mut ctx, "local", 1);
    let first = ctx.unload_script(1);
    let (queries, effects, reply) = drive(&mut ctx, first, vec![Answer::Detached(true)]);
    assert_eq!(queries, vec![Query::IsDetached { session_id: 1 }]);
    assert_eq!(effects, vec![Effect::ReleaseScript { script_id: 1 }]);
    assert_eq!(reply, Reply::Unit(Ok(())));
}

#[test]
fn unload_script_refuses_an_unknown_script() {
    let mut ctx = actor();
    attach_ok(&mut ctx, "local", 1);
    let step = ctx.unload_script(9);
    assert!(step.effects.is_empty());
    assert_eq!(
        step.next,
        Next::Reply(Reply::Unit(Err(ServiceError::UnknownHandle(HandleKind::Script))))
    );
    assert_eq!(ctx.registry().script_ids(1), vec![1]);
}

#[test]
fn unload_script_keeps_the_order_of_the_others() {
    let mut ctx = actor();
    attach_ok(&mut ctx, "local", 1);
    for _ in 0..2 {
        let first = ctx.load_default_script(1);
        drive(
            &mut ctx,
            first,
            vec![
                Answer::Detached(false),
                Answer::Completed(Ok(())),
                Answer::Completed(Ok(())),
                Answer::Completed(Ok(())),
            ],
        );
    }
    assert_eq!(ctx.registry().script_ids(1), vec![1, 2, 3]);
    let first = ctx.unload_script(2);
    drive(&mut ctx, first, vec![Answer::Detached(false), Answer::Completed(Ok(()))]);
    assert_eq!(ctx.registry().script_ids(1), vec![1, 3]);
}

#[test]
fn detach_unloads_every_script_oldest_first() {
    let mut ctx = actor();
    attach_ok(&mut ctx, "local", 1);
    let first = ctx.load_default_script(1);
    drive(
        &mut ctx,
        first,
        vec![
            Answer::Detached(false),
            Answer::Completed(Ok(())),
            Answer::Completed(Ok(())),
            Answer::Completed(Ok(())),
        ],
    );
    let first = ctx.detach(1);
    let (queries, effects, reply) = drive(
        &mut ctx,
        first,
        vec![
            Answer::Detached(false),
            Answer::Completed(Ok(())),
            Answer::Detached(false),
            Answer::Completed(Ok(())),
            Answer::Completed(Ok(())),
        ],
    );
    assert_eq!(
        queries,
        vec![
            Query::IsDetached { session_id: 1 },
            Query::UnloadScript { script_id: 1 },
            Query::IsDetached { session_id: 1 },
            Query::UnloadScript { script_id: 2 },
            Query::DetachSession { session_id: 1 },
        ]
    );
    assert_eq!(
        effects,
        vec![
            Effect::ReleaseScript { script_id: 1 },
            Effect::ReleaseScript { script_id: 2 },
            Effect::Emit(Notice::SessionDetached { session_id: 1, reason: DetachReason::User }),
            Effect::ReleaseSession { session_id: 1 },
        ]
    );
    assert_eq!(reply, Reply::Unit(Ok(())));
}

#[test]
fn script_post_refuses_a_detached_session() {
    let mut ctx = actor();
    attach_ok(&mut ctx, "local", 1);
    let first = ctx.script_post(1, &ping(), Some(vec![1, 2, 3]));
    let (queries, _, reply) = drive(&mut ctx, first, vec![Answer::Detached(true)]);
    assert_eq!(queries, vec![Query::IsDetached { session_id: 1 }]);
    assert_eq!(reply, Reply::Unit(Err(ServiceError::SessionDetached)));
}

#[test]
fn script_post_forwards_the_bytes() {
    let mut ctx = actor();
    attach_ok(&mut ctx, "local", 1);
    let first = ctx.script_post(1, &serde_json::Value::Null, Some(vec![0, 255]));
    let (queries, _, reply) =
        drive(&mut ctx, first, vec![Answer::Detached(false), Answer::Completed(Ok(()))]);
    assert_eq!(
        queries[1],
        Query::Post { script_id: 1, message: "null".to_string(), data: Some(vec![0, 255]) }
    );
    assert_eq!(reply, Reply::Unit(Ok(())));
}

#[test]
fn script_post_escapes_a_nul_inside_a_json_string() {
    let mut ctx = actor();
    attach_ok(&mut ctx, "local", 1);
    let first = ctx.script_post(1, &serde_json::Value::String("a\0b".to_string()), None);
    let (queries, _, reply) =
        drive(&mut ctx, first, vec![Answer::Detached(false), Answer::Completed(Ok(()))]);
    assert_eq!(
        queries[1],
        Query::Post { script_id: 1, message: "\"a\\u0000b\"".to_string(), data: None }
    );
    assert_eq!(reply, Reply::Unit(Ok(())));
}

#[test]
fn script_post_encoded_checks_the_text() {
    let mut ctx = actor();
    attach_ok(&mut ctx, "local", 1);
    let first = ctx.script_post_encoded(1, Ok("{\"a\":\"\0\"}".to_string()), None);
    let (_, _, reply) = drive(&mut ctx, first, vec![Answer::Detached(false)]);
    assert_eq!(
        reply,
        Reply::Unit(Err(ServiceError::InputValidation { label: "message".to_string() }))
    );
    let first = ctx.script_post_encoded(1, Err("key must be a string".to_string()), None);
    let (_, _, reply) = drive(&mut ctx, first, vec![Answer::Detached(false)]);
    assert_eq!(
        reply,
        Reply::Unit(Err(ServiceError::Encoding { message: "key must be a string".to_string() }))
    );
    // a detached session is reported before the text is looked at
    let first = ctx.script_post_encoded(1, Err("key must be a string".to_string()), None);
    let (_, _, reply) = drive(&mut ctx, first, vec![Answer::Detached(true)]);
    assert_eq!(reply, Reply::Unit(Err(ServiceError::SessionDetached)));
}

#[test]
fn script_post_reports_the_toolkits_refusal() {
    let mut ctx = actor();
    attach_ok(&mut ctx, "local", 1);
    let first = ctx.script_post(1, &ping(), None);
    let (_, _, reply) = drive(
        &mut ctx,
        first,
        vec![
            Answer::Detached(false),
            Answer::Completed(Err("Failed to convert the string into CString".to_string())),
        ],
    );
    assert_eq!(
        reply,
        Reply::Unit(Err(ServiceError::DeviceError {
            message: "Failed to convert the string into CString".to_string()
        }))
    );
}

#[test]
fn version_and_devices_pass_through() {
    let mut ctx = actor();
    let step = ctx.version();
    assert_eq!(step.next, Next::Ask(Query::Version));
    let step = ctx.deliver(Answer::Text("16.5.9".to_string()), 0);
    assert_eq!(step.next, Next::Reply(Reply::Version("16.5.9".to_string())));

    let step = ctx.list_devices();
    assert_eq!(step.next, Next::Ask(Query::EnumerateDevices));
    let devices = vec![carf::types::DeviceInfo {
        id: "local".to_string(),
        name: "Local System".to_string(),
        device_type: "local".to_string(),
    }];
    let step = ctx.deliver(Answer::Devices(devices), 0);
    match step.next {
        Next::Reply(Reply::Devices(list)) => {
            assert_eq!(list.len(), 1);
            assert_eq!(list[0].id, "local");
            assert_eq!(list[0].name, "Local System");
            assert_eq!(list[0].device_type, "local");
        }
        other => panic!("unexpected {:?}", other),
    }
}

#[test]
fn accepts_tells_the_kind_of_answer_that_is_due() {
    let mut ctx = actor();
    assert!(!ctx.accepts(&Answer::Detached(true)));
    ctx.attach("local", 1);
    assert!(ctx.accepts(&Answer::Completed(Ok(()))));
    assert!(!ctx.accepts(&Answer::Detached(false)));
    assert!(!ctx.accepts(&Answer::Text(String::new())));
    ctx.deliver(Answer::Completed(Ok(())), 0);
    assert!(ctx.accepts(&Answer::Detached(false)));
    assert!(!ctx.accepts(&Answer::Completed(Ok(()))));
}

#[test]
fn the_last_session_id_is_never_handed_out() {
    let mut ctx = FridaContext::starting_at(Ok(AGENT.to_string()), u64::MAX - 1, 1);
    let info = attach_ok(&mut ctx, "local", 1);
    assert_eq!(info, SessionInfo { session_id: u64::MAX - 1, script_id: 1 });
    assert_eq!(ctx.registry().next_session_id(), u64::MAX);
    let step = ctx.attach("local", 2);
    assert!(step.effects.is_empty());
    assert_eq!(step.next, Next::Reply(Reply::Attached(Err(ServiceError::IdsExhausted))));
    assert!(ctx.is_idle());
    // the session that was attached before is still there
    assert_eq!(ctx.registry().session_ids(), vec![u64::MAX - 1]);
    assert_eq!(ctx.registry().script_ids(u64::MAX - 1), vec![1]);
}

#[test]
fn the_last_script_id_is_never_handed_out() {
    let mut ctx = FridaContext::starting_at(Ok(AGENT.to_string()), 1, u64::MAX - 1);
    let info = attach_ok(&mut ctx, "local", 1);
    assert_eq!(info, SessionInfo { session_id: 1, script_id: u64::MAX - 1 });
    let first = ctx.load_default_script(1);
    let (queries, effects, reply) = drive(&mut ctx, first, vec![Answer::Detached(false)]);
    assert_eq!(queries, vec![Query::IsDetached { session_id: 1 }]);
    assert!(effects.is_empty());
    assert_eq!(reply, Reply::ScriptLoaded(Err(ServiceError::IdsExhausted)));
    assert_eq!(ctx.registry().script_ids(1), vec![u64::MAX - 1]);

    // for attach, the new session is taken back
    let first = ctx.attach("local", 2);
    let (_, effects, reply) =
        drive(&mut ctx, first, vec![Answer::Completed(Ok(())), Answer::Detached(false)]);
    assert_eq!(effects, vec![Effect::ReleaseSession { session_id: 2 }]);
    assert_eq!(reply, Reply::Attached(Err(ServiceError::IdsExhausted)));
    assert_eq!(ctx.registry().session_ids(), vec![1]);
}
