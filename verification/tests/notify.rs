use android_compat::host::Call;
use android_compat::host::Exception;
use android_compat::host::Host;
use android_compat::host::HostError;
use android_compat::host::MemberKind;
use android_compat::host::Reply;
use android_compat::host::Value;
use android_compat::notification::activity_flags;
use android_compat::notification::create_intent;
use android_compat::notification::pending_intent;
use android_compat::notification::ActivityFlagCache;
use android_compat::notification::ActivityFlagLoader;
use android_compat::notification::NotificationBuilder;
use android_compat::notification::NotificationManager;
use android_compat::probe::CompatEnv;

const CONTEXT: u64 = 10;
const BUILDER_CLASS: u64 = 70;
const RICH_BUILDER: u64 = 71;
const SIMPLE_BUILDER: u64 = 72;
const NOTIFICATION: u64 = 90;

const RICH_SIG: &str = "(Landroid/content/Context;Ljava/lang/String;)V";
const SIMPLE_SIG: &str = "(Landroid/content/Context;)V";

fn setup() -> (Host, CompatEnv) {
    let mut host = Host::new(CONTEXT);
    let env = CompatEnv::new(&mut host).expect("signal classes must resolve");
    (host, env)
}

fn ctor_calls(host: &Host) -> Vec<&Call> {
    host.log
        .iter()
        .filter(|c| matches!(c, Call::Member { kind: MemberKind::Ctor, .. }))
        .collect()
}

#[test]
fn builder_uses_rich_constructor_when_present() {
    let (mut host, env) = setup();
    host.add_class("android/app/Notification$Builder", BUILDER_CLASS);
    host.add_member(
        MemberKind::Ctor,
        BUILDER_CLASS,
        "<init>",
        RICH_SIG,
        Reply::Value(Value::Object(RICH_BUILDER)),
    );
    let b = NotificationBuilder::new(env, &mut host, "alerts").unwrap();
    assert_eq!(b.internal, RICH_BUILDER);
    assert_eq!(ctor_calls(&host).len(), 1);
    // The richer constructor carried the channel identifier.
    match ctor_calls(&host)[0] {
        Call::Member { args, .. } => {
            assert_eq!(
                *args,
                vec![Value::Object(CONTEXT), Value::Str("alerts".to_string())]
            );
        }
        _ => unreachable!(),
    }
}

#[test]
fn builder_falls_back_to_simple_constructor_on_absence() {
    let (mut host, env) = setup();
    host.add_class("android/app/Notification$Builder", BUILDER_CLASS);
    // Only the simpler constructor exists on this host release.
    host.add_member(
        MemberKind::Ctor,
        BUILDER_CLASS,
        "<init>",
        SIMPLE_SIG,
        Reply::Value(Value::Object(SIMPLE_BUILDER)),
    );
    let b = NotificationBuilder::new(env, &mut host, "alerts").unwrap();
    assert_eq!(b.internal, SIMPLE_BUILDER);
    // The richer path was attempted once, the simpler path invoked exactly
    // once, and nothing twice.
    let ctors = ctor_calls(&host);
    assert_eq!(ctors.len(), 2);
    assert!(matches!(ctors[0], Call::Member { sig, .. } if sig.as_str() == RICH_SIG));
    assert!(matches!(ctors[1], Call::Member { sig, .. } if sig.as_str() == SIMPLE_SIG));
    assert!(!host.has_pending_fault());
}

#[test]
fn builder_does_not_fall_back_on_real_failure() {
    let (mut host, env) = setup();
    host.add_class("android/app/Notification$Builder", BUILDER_CLASS);
    host.add_member(
        MemberKind::Ctor,
        BUILDER_CLASS,
        "<init>",
        RICH_SIG,
        Reply::Throw(Exception { identity: 800, instance_of: vec![4242] }),
    );
    host.add_member(
        MemberKind::Ctor,
        BUILDER_CLASS,
        "<init>",
        SIMPLE_SIG,
        Reply::Value(Value::Object(SIMPLE_BUILDER)),
    );
    let r = NotificationBuilder::new(env, &mut host, "alerts");
    assert!(matches!(r, Err(HostError::ExceptionPending)));
    // The simpler path was never tried: an unrelated fault must propagate,
    // not trigger a fallback.
    assert_eq!(ctor_calls(&host).len(), 1);
}

#[test]
fn builder_simple_path_failure_is_the_result() {
    let (mut host, env) = setup();
    host.add_class("android/app/Notification$Builder", BUILDER_CLASS);
    // Richer constructor absent, simpler constructor absent as well: the
    // simpler path's own failure is the operation's result.
    let r = NotificationBuilder::new(env, &mut host, "alerts");
    assert!(matches!(r, Err(HostError::ExceptionPending)));
    assert_eq!(ctor_calls(&host).len(), 2);
}

fn add_builder(host: &mut Host, rich: bool) -> u64 {
    host.add_class("android/app/Notification$Builder", BUILDER_CLASS);
    let builder = if rich { RICH_BUILDER } else { SIMPLE_BUILDER };
    if rich {
        host.add_member(
            MemberKind::Ctor,
            BUILDER_CLASS,
            "<init>",
            RICH_SIG,
            Reply::Value(Value::Object(builder)),
        );
    } else {
        host.add_member(
            MemberKind::Ctor,
            BUILDER_CLASS,
            "<init>",
            SIMPLE_SIG,
            Reply::Value(Value::Object(builder)),
        );
    }
    for (name, sig) in [
        ("setContentTitle", "(Ljava/lang/CharSequence;)Landroid/app/Notification$Builder;"),
        ("setContentText", "(Ljava/lang/CharSequence;)Landroid/app/Notification$Builder;"),
        ("setAutoCancel", "(Z)Landroid/app/Notification$Builder;"),
        ("setSmallIcon", "(I)Landroid/app/Notification$Builder;"),
    ] {
        host.add_member(
            MemberKind::Method,
            builder,
            name,
            sig,
            Reply::Value(Value::Object(builder)),
        );
    }
    builder
}

fn add_manager(host: &mut Host) -> u64 {
    host.add_class("android/content/Context", 24);
    host.add_member(
        MemberKind::StaticField,
        24,
        "NOTIFICATION_SERVICE",
        "Ljava/lang/String;",
        Reply::Value(Value::Object(61)),
    );
    host.add_member(
        MemberKind::Method,
        CONTEXT,
        "getSystemService",
        "(Ljava/lang/String;)Ljava/lang/Object;",
        Reply::Value(Value::Object(62)),
    );
    host.add_member(
        MemberKind::Method,
        62,
        "notify",
        "(ILandroid/app/Notification;)V",
        Reply::Value(Value::Void),
    );
    62
}

fn deliveries(host: &Host) -> Vec<&Call> {
    host.log
        .iter()
        .filter(|c| matches!(c, Call::Member { name, .. } if name.as_str() == "notify"))
        .collect()
}

fn build_and_dispatch(host: &mut Host, env: CompatEnv, builder_obj: u64, expected_calls: usize) {
    let manager = NotificationManager::new(env, host).unwrap();
    assert_eq!(manager.internal, 62);
    let builder = NotificationBuilder::new(env, host, "alerts").unwrap();
    assert_eq!(builder.internal, builder_obj);
    let builder = builder.set_title(host, "T").unwrap();
    let builder = builder.set_content_text(host, "B").unwrap();
    let builder = builder.set_auto_cancel(host, true).unwrap();
    let builder = builder.set_small_icon(host, 7).unwrap();
    manager.notify(host, &builder, 42).unwrap();
    let sent = deliveries(host);
    assert_eq!(sent.len(), 1);
    match sent[0] {
        Call::Member { target, args, .. } => {
            assert_eq!(*target, 62);
            assert_eq!(*args, vec![Value::Int(42), Value::Object(NOTIFICATION)]);
        }
        _ => unreachable!(),
    }
    // No call beyond service resolution, construction, the four setters,
    // finalization and the one delivery was issued.
    assert_eq!(host.log.len(), expected_calls);
}

#[test]
fn dispatch_issues_one_delivery_with_newer_finalize() {
    let (mut host, env) = setup();
    let builder = add_builder(&mut host, true);
    add_manager(&mut host);
    host.add_member(
        MemberKind::Method,
        builder,
        "build",
        "()Landroid/app/Notification;",
        Reply::Value(Value::Object(NOTIFICATION)),
    );
    build_and_dispatch(&mut host, env, builder, 17);
}

#[test]
fn dispatch_issues_one_delivery_with_older_finalize() {
    let (mut host, env) = setup();
    let builder = add_builder(&mut host, false);
    add_manager(&mut host);
    // No newer finalize call on this release; only the older
    // get-current-state call exists.
    host.add_member(
        MemberKind::Method,
        builder,
        "getNotification",
        "()Landroid/app/Notification;",
        Reply::Value(Value::Object(NOTIFICATION)),
    );
    build_and_dispatch(&mut host, env, builder, 19);
}

#[test]
fn setter_failure_is_fatal() {
    let (mut host, env) = setup();
    let builder_obj = add_builder(&mut host, true);
    host.add_member(
        MemberKind::Method,
        builder_obj,
        "setContentTitle",
        "(Ljava/lang/CharSequence;)Landroid/app/Notification$Builder;",
        Reply::Fail,
    );
    let builder = NotificationBuilder::new(env, &mut host, "alerts").unwrap();
    let r = builder.set_title(&mut host, "T");
    assert!(matches!(r, Err(HostError::Malformed)));
}

const INTENT_CLASS: u64 = 80;

fn add_flags(host: &mut Host, with_optional: bool) {
    host.add_class("android/content/Intent", INTENT_CLASS);
    for name in [
        "FLAG_ACTIVITY_BROUGHT_TO_FRONT",
        "FLAG_ACTIVITY_CLEAR_TOP",
        "FLAG_ACTIVITY_EXCLUDE_FROM_RECENTS",
        "FLAG_ACTIVITY_FORWARD_RESULT",
        "FLAG_ACTIVITY_LAUNCHED_FROM_HISTORY",
        "FLAG_ACTIVITY_MULTIPLE_TASK",
        "FLAG_ACTIVITY_NEW_TASK",
        "FLAG_ACTIVITY_NO_HISTORY",
        "FLAG_ACTIVITY_PREVIOUS_IS_TOP",
        "FLAG_ACTIVITY_RESET_TASK_IF_NEEDED",
    ] {
        host.add_member(
            MemberKind::StaticField,
            INTENT_CLASS,
            name,
            "I",
            Reply::Value(Value::Int(1)),
        );
    }
    if with_optional {
        host.add_member(
            MemberKind::StaticField,
            INTENT_CLASS,
            "FLAG_ACTIVITY_CLEAR_TASK",
            "I",
            Reply::Value(Value::Int(32768)),
        );
        host.add_member(
            MemberKind::StaticField,
            INTENT_CLASS,
            "FLAG_ACTIVITY_SINGLE_TOP",
            "I",
            Reply::Value(Value::Int(536870912)),
        );
    }
}

#[test]
fn flag_loader_reads_required_and_optional_constants() {
    let (mut host, env) = setup();
    add_flags(&mut host, true);
    let flags = ActivityFlagLoader(env).load(&mut host).unwrap();
    assert_eq!(flags.new_task, 1);
    assert_eq!(flags.clear_task, Some(32768));
    assert_eq!(flags.single_top, Some(536870912));
    // Optional constants the host does not have stay empty.
    assert_eq!(flags.launch_adjacent, None);
    assert_eq!(flags.require_default, None);
    assert!(!host.has_pending_fault());
}

#[test]
fn flag_loader_fails_loudly_on_missing_required_constant() {
    let (mut host, env) = setup();
    add_flags(&mut host, true);
    // Drop a required constant by overriding it with an absence signal.
    host.add_member(
        MemberKind::StaticField,
        INTENT_CLASS,
        "FLAG_ACTIVITY_NEW_TASK",
        "I",
        Reply::Throw(Exception {
            identity: 801,
            instance_of: vec![android_compat::host::NO_SUCH_FIELD_ERROR],
        }),
    );
    let r = ActivityFlagLoader(env).load(&mut host);
    match r {
        Err(HostError::FieldNotFound { name, sig }) => {
            assert_eq!(name, "FLAG_ACTIVITY_NEW_TASK");
            assert_eq!(sig, "I");
        }
        other => panic!("expected a field-not-found failure, got {:?}", other),
    }
}

#[test]
fn activity_flags_are_loaded_once_and_memoized() {
    let (mut host, env) = setup();
    add_flags(&mut host, true);
    let mut cache = ActivityFlagCache::new();
    let first = activity_flags(&mut cache, env, &mut host).unwrap();
    let calls = host.log.len();
    // Change the host's answer; the memoized bag must win, with no further
    // cross-boundary calls.
    host.add_member(
        MemberKind::StaticField,
        INTENT_CLASS,
        "FLAG_ACTIVITY_NEW_TASK",
        "I",
        Reply::Value(Value::Int(77)),
    );
    let second = activity_flags(&mut cache, env, &mut host).unwrap();
    assert_eq!(first, second);
    assert_eq!(host.log.len(), calls);
}

#[test]
fn activity_flags_failure_leaves_cache_empty_for_retry() {
    let (mut host, env) = setup();
    let mut cache = ActivityFlagCache::new();
    // No intent class at all: the load fails with the pending fault.
    let r = activity_flags(&mut cache, env, &mut host);
    assert!(matches!(r, Err(HostError::ExceptionPending)));
    assert!(cache.cached.is_none());
    host.exception_clear();
    // Once the host exposes the constants, a retry succeeds.
    add_flags(&mut host, false);
    let flags = activity_flags(&mut cache, env, &mut host).unwrap();
    assert_eq!(flags.new_task, 1);
    assert_eq!(flags.clear_task, None);
}

#[test]
fn create_intent_constructs_and_sets_flags() {
    let (mut host, env) = setup();
    host.add_class("android/content/Intent", INTENT_CLASS);
    host.set_object_class(CONTEXT, 81);
    host.add_member(
        MemberKind::Ctor,
        INTENT_CLASS,
        "<init>",
        "(Landroid/content/Context;Ljava/lang/Class;)V",
        Reply::Value(Value::Object(82)),
    );
    host.add_member(
        MemberKind::Method,
        82,
        "setFlags",
        "(I)Landroid/content/Intent;",
        Reply::Value(Value::Object(82)),
    );
    let intent = create_intent(env, &mut host, 268435456).unwrap();
    assert_eq!(intent, 82);
    let set_flags: Vec<&Call> = host
        .log
        .iter()
        .filter(|c| matches!(c, Call::Member { name, .. } if name.as_str() == "setFlags"))
        .collect();
    assert_eq!(set_flags.len(), 1);
    match set_flags[0] {
        Call::Member { args, .. } => assert_eq!(*args, vec![Value::Int(268435456)]),
        _ => unreachable!(),
    }
}

#[test]
fn pending_intent_wraps_intent_for_own_context() {
    let (mut host, env) = setup();
    host.add_class("android/app/PendingIntent", 85);
    host.add_member(
        MemberKind::StaticMethod,
        85,
        "getActivity",
        "(Landroid/content/Context;ILandroid/content/Intent;I)Landroid/app/PendingIntent;",
        Reply::Value(Value::Object(86)),
    );
    let p = pending_intent(env, &mut host, 82).unwrap();
    assert_eq!(p, 86);
    match host.log.last().unwrap() {
        Call::Member { args, .. } => {
            assert_eq!(
                *args,
                vec![
                    Value::Object(CONTEXT),
                    Value::Int(0),
                    Value::Object(82),
                    Value::Int(0),
                ]
            );
        }
        _ => unreachable!(),
    }
}

#[test]
fn manager_resolution_failure_propagates() {
    let (mut host, env) = setup();
    // No context class: resolving the delivery service fails.
    let r = NotificationManager::new(env, &mut host);
    assert!(matches!(r, Err(HostError::ExceptionPending)));
    assert!(host.has_pending_fault());
}
