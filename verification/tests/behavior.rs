use android_compat::channel::create_notification_channel;
use android_compat::channel::notification_channel_available;
use android_compat::channel::Importance;
use android_compat::channel::NotificationChannel;
use android_compat::host::Call;
use android_compat::host::Exception;
use android_compat::host::Host;
use android_compat::host::HostError;
use android_compat::host::MemberKind;
use android_compat::host::Reply;
use android_compat::host::Value;
use android_compat::host::NO_SUCH_FIELD_ERROR;
use android_compat::host::NO_SUCH_FIELD_EXCEPTION;
use android_compat::probe::CompatEnv;

const CONTEXT: u64 = 10;

fn setup() -> (Host, CompatEnv) {
    let mut host = Host::new(CONTEXT);
    let env = CompatEnv::new(&mut host).expect("signal classes must resolve");
    (host, env)
}

/// Number of calls that construct an object or run a method: anything that
/// could change host-side state.
fn run_count(host: &Host) -> usize {
    host.log
        .iter()
        .filter(|c| match c {
            Call::Member { kind, .. } => matches!(
                kind,
                MemberKind::Method | MemberKind::StaticMethod | MemberKind::Ctor
            ),
            Call::FindClass { .. } => false,
        })
        .count()
}

#[test]
fn context_creation_resolves_signal_classes() {
    let (host, env) = setup();
    assert_eq!(env.context, CONTEXT);
    assert!(!host.has_pending_fault());
    // Six class lookups were issued, one per signal type.
    assert_eq!(host.log.len(), 6);
}

#[test]
fn context_creation_fails_on_bare_host() {
    // A host without the foundational signal classes cannot classify
    // faults: context creation aborts.
    let mut host = Host::new(CONTEXT);
    host.classes.clear();
    let r = CompatEnv::new(&mut host);
    assert!(matches!(r, Err(HostError::ExceptionPending)));
    assert!(host.has_pending_fault());
}

#[test]
fn probe_ignored_exception_is_absent_and_clears_fault() {
    let (mut host, env) = setup();
    host.add_class("android/os/Build$VERSION", 20);
    host.add_member(
        MemberKind::StaticField,
        20,
        "SDK_INT",
        "I",
        Reply::Throw(Exception { identity: 700, instance_of: vec![NO_SUCH_FIELD_ERROR] }),
    );
    let r = env.try_get_static_field(&mut host, 20, "SDK_INT", "I");
    assert!(matches!(r, Ok(None)));
    assert!(!host.has_pending_fault());
}

#[test]
fn probe_subclass_of_ignored_type_is_absent() {
    // The ignore test is an instance-of test, not exact-type equality: an
    // exception of a subclass of a signal type still counts as absence.
    let (mut host, env) = setup();
    host.add_member(
        MemberKind::StaticField,
        20,
        "SDK_INT",
        "I",
        Reply::Throw(Exception {
            identity: 701,
            instance_of: vec![9999, NO_SUCH_FIELD_EXCEPTION],
        }),
    );
    let r = env.try_get_static_field(&mut host, 20, "SDK_INT", "I");
    assert!(matches!(r, Ok(None)));
    assert!(!host.has_pending_fault());
}

#[test]
fn probe_unrelated_exception_is_failure_and_rethrows_same_object() {
    let (mut host, env) = setup();
    host.add_member(
        MemberKind::StaticField,
        20,
        "SDK_INT",
        "I",
        Reply::Throw(Exception { identity: 777, instance_of: vec![4242] }),
    );
    let r = env.try_get_static_field(&mut host, 20, "SDK_INT", "I");
    assert!(matches!(r, Err(HostError::ExceptionPending)));
    // The original exception object was re-raised: re-inspecting the
    // pending fault yields the same identity that was thrown.
    let pending = host.exception_occurred().expect("fault must be pending");
    assert_eq!(pending.identity, 777);
    assert_eq!(pending.instance_of, vec![4242]);
}

#[test]
fn probe_wrong_ignore_set_does_not_swallow() {
    // A field-not-found exception raised by a method call is a real
    // failure: method probes ignore only the method-not-found types.
    let (mut host, env) = setup();
    host.add_member(
        MemberKind::Method,
        30,
        "frobnicate",
        "()V",
        Reply::Throw(Exception { identity: 702, instance_of: vec![NO_SUCH_FIELD_ERROR] }),
    );
    let r = env.try_call_method(&mut host, 30, "frobnicate", "()V", Vec::new());
    assert!(matches!(r, Err(HostError::ExceptionPending)));
    assert!(host.has_pending_fault());
}

#[test]
fn probe_transport_fault_passes_through_without_touching_slot() {
    let (mut host, env) = setup();
    host.add_member(MemberKind::StaticField, 20, "SDK_INT", "I", Reply::Fail);
    let r = env.try_get_static_field(&mut host, 20, "SDK_INT", "I");
    assert!(matches!(r, Err(HostError::Malformed)));
    assert!(!host.has_pending_fault());
}

#[test]
fn probe_missing_symbol_is_absent() {
    let (mut host, env) = setup();
    // No entry at all for this key: the host synthesizes the not-found
    // exception, which the probe classifies as absence.
    let r = env.try_get_static_field(&mut host, 20, "NOWHERE", "I");
    assert!(matches!(r, Ok(None)));
    assert!(!host.has_pending_fault());
    let r = env.try_find_class(&mut host, "android/does/not/Exist");
    assert!(matches!(r, Ok(None)));
    assert!(!host.has_pending_fault());
}

fn resource_host() -> (Host, CompatEnv, android_compat::resources::ResourceManager) {
    let (mut host, env) = setup();
    host.add_member(
        MemberKind::Method,
        CONTEXT,
        "getResources",
        "()Landroid/content/res/Resources;",
        Reply::Value(Value::Object(40)),
    );
    host.add_member(
        MemberKind::Method,
        CONTEXT,
        "getPackageName",
        "()Ljava/lang/String;",
        Reply::Value(Value::Object(41)),
    );
    host.add_member(
        MemberKind::Method,
        40,
        "getIdentifier",
        "(Ljava/lang/String;Ljava/lang/String;Ljava/lang/String;)I",
        Reply::Value(Value::Int(7)),
    );
    let rm = android_compat::resources::ResourceManager::new(env, &mut host, CONTEXT)
        .expect("resource manager must resolve");
    (host, env, rm)
}

#[test]
fn resource_cache_is_keyed_by_name_alone() {
    let (mut host, _env, mut rm) = resource_host();
    assert_eq!(rm.get(&mut host, "icon_a", android_compat::resources::DRAWABLE).unwrap(), 7);
    let calls_after_first = host.log.len();
    // Change what the host would answer now; a cached name never reaches it.
    host.add_member(
        MemberKind::Method,
        40,
        "getIdentifier",
        "(Ljava/lang/String;Ljava/lang/String;Ljava/lang/String;)I",
        Reply::Value(Value::Int(99)),
    );
    // Same name, different kind: the value cached for the first kind comes
    // back, and no cross-boundary call is issued.
    assert_eq!(rm.get(&mut host, "icon_a", "mipmap").unwrap(), 7);
    assert_eq!(host.log.len(), calls_after_first);
    // A fresh name does reach the host again.
    assert_eq!(rm.get(&mut host, "icon_b", "mipmap").unwrap(), 99);
    assert_eq!(host.log.len(), calls_after_first + 1);
}

#[test]
fn resource_lookup_failure_is_not_cached() {
    let (mut host, _env, mut rm) = resource_host();
    host.add_member(
        MemberKind::Method,
        40,
        "getIdentifier",
        "(Ljava/lang/String;Ljava/lang/String;Ljava/lang/String;)I",
        Reply::Fail,
    );
    assert!(matches!(rm.get(&mut host, "icon_a", "drawable"), Err(HostError::Malformed)));
    // The failure was not memoized: once the host recovers, the same name
    // resolves.
    host.add_member(
        MemberKind::Method,
        40,
        "getIdentifier",
        "(Ljava/lang/String;Ljava/lang/String;Ljava/lang/String;)I",
        Reply::Value(Value::Int(5)),
    );
    assert_eq!(rm.get(&mut host, "icon_a", "drawable").unwrap(), 5);
}

fn add_version_metadata(host: &mut Host, sdk: i32, threshold: i32) {
    host.add_class("android/os/Build$VERSION", 20);
    host.add_class("android/os/Build$VERSION_CODES", 21);
    host.add_member(MemberKind::StaticField, 20, "SDK_INT", "I", Reply::Value(Value::Int(sdk)));
    host.add_member(MemberKind::StaticField, 21, "O", "I", Reply::Value(Value::Int(threshold)));
}

#[test]
fn feature_detector_false_when_version_codes_class_absent() {
    let (mut host, env) = setup();
    host.add_class("android/os/Build$VERSION", 20);
    host.add_member(MemberKind::StaticField, 20, "SDK_INT", "I", Reply::Value(Value::Int(33)));
    // The version-codes class is absent: unavailable, no fault raised,
    // whatever the running version says.
    assert_eq!(notification_channel_available(env, &mut host).unwrap(), false);
    assert!(!host.has_pending_fault());
}

#[test]
fn feature_detector_false_when_version_class_absent() {
    let (mut host, env) = setup();
    assert_eq!(notification_channel_available(env, &mut host).unwrap(), false);
    assert!(!host.has_pending_fault());
}

#[test]
fn feature_detector_false_when_threshold_constant_absent() {
    let (mut host, env) = setup();
    host.add_class("android/os/Build$VERSION", 20);
    host.add_class("android/os/Build$VERSION_CODES", 21);
    host.add_member(MemberKind::StaticField, 20, "SDK_INT", "I", Reply::Value(Value::Int(33)));
    assert_eq!(notification_channel_available(env, &mut host).unwrap(), false);
}

#[test]
fn feature_detector_compares_version_to_threshold() {
    let (mut host, env) = setup();
    add_version_metadata(&mut host, 26, 26);
    assert_eq!(notification_channel_available(env, &mut host).unwrap(), true);

    let (mut host, env) = setup();
    add_version_metadata(&mut host, 25, 26);
    assert_eq!(notification_channel_available(env, &mut host).unwrap(), false);
}

#[test]
fn feature_detector_propagates_real_fault() {
    let (mut host, env) = setup();
    host.add_class("android/os/Build$VERSION", 20);
    host.add_class("android/os/Build$VERSION_CODES", 21);
    host.add_member(
        MemberKind::StaticField,
        20,
        "SDK_INT",
        "I",
        Reply::Throw(Exception { identity: 703, instance_of: vec![4242] }),
    );
    let r = notification_channel_available(env, &mut host);
    assert!(matches!(r, Err(HostError::ExceptionPending)));
}

fn add_channel_registration(host: &mut Host) {
    host.add_class("android/app/NotificationManager", 22);
    host.add_member(
        MemberKind::StaticField,
        22,
        "IMPORTANCE_DEFAULT",
        "I",
        Reply::Value(Value::Int(3)),
    );
    host.add_class("android/app/NotificationChannel", 23);
    host.add_member(
        MemberKind::Ctor,
        23,
        "<init>",
        "(Ljava/lang/String;Ljava/lang/CharSequence;I)V",
        Reply::Value(Value::Object(60)),
    );
    host.add_member(
        MemberKind::Method,
        60,
        "setDescription",
        "(Ljava/lang/String;)V",
        Reply::Value(Value::Void),
    );
    host.add_class("android/content/Context", 24);
    host.add_member(
        MemberKind::StaticField,
        24,
        "NOTIFICATION_SERVICE",
        "Ljava/lang/String;",
        Reply::Value(Value::Object(61)),
    );
    host.add_member(
        MemberKind::Method,
        CONTEXT,
        "getSystemService",
        "(Ljava/lang/String;)Ljava/lang/Object;",
        Reply::Value(Value::Object(62)),
    );
    host.add_member(
        MemberKind::Method,
        62,
        "createNotificationChannel",
        "(Landroid/app/NotificationChannel;)V",
        Reply::Value(Value::Void),
    );
}

#[test]
fn channel_registration_is_noop_when_feature_unavailable() {
    let (mut host, env) = setup();
    // The host even has the registration symbols, but reports no version
    // metadata: the detector must keep registration from being attempted.
    add_channel_registration(&mut host);
    let cfg = NotificationChannel {
        id: "alerts",
        name: "Alerts".to_string(),
        desc: None,
        importance: Importance::Default,
    };
    let before = run_count(&host);
    let r = create_notification_channel(cfg, env, &mut host);
    assert!(matches!(r, Ok(())));
    // Zero registration calls were issued: the host was only queried.
    assert_eq!(run_count(&host), before);
    assert!(!host.has_pending_fault());
}

#[test]
fn channel_registration_registers_when_feature_available() {
    let (mut host, env) = setup();
    add_version_metadata(&mut host, 30, 26);
    add_channel_registration(&mut host);
    let cfg = NotificationChannel {
        id: "alerts",
        name: "Alerts".to_string(),
        desc: Some("All alerts".to_string()),
        importance: Importance::Default,
    };
    create_notification_channel(cfg, env, &mut host).expect("registration must succeed");
    let registrations: Vec<&Call> = host
        .log
        .iter()
        .filter(|c| {
            matches!(c, Call::Member { name, .. } if name.as_str() == "createNotificationChannel")
        })
        .collect();
    assert_eq!(registrations.len(), 1);
    match registrations[0] {
        Call::Member { target, args, .. } => {
            assert_eq!(*target, 62);
            assert_eq!(*args, vec![Value::Object(60)]);
        }
        _ => unreachable!(),
    }
    // The channel constructor carried the identifier, the display name and
    // the importance value, in the host's calling convention.
    let ctors: Vec<&Call> = host
        .log
        .iter()
        .filter(|c| matches!(c, Call::Member { kind: MemberKind::Ctor, .. }))
        .collect();
    assert_eq!(ctors.len(), 1);
    match ctors[0] {
        Call::Member { args, .. } => {
            assert_eq!(
                *args,
                vec![
                    Value::Str("alerts".to_string()),
                    Value::Str("Alerts".to_string()),
                    Value::Int(3),
                ]
            );
        }
        _ => unreachable!(),
    }
    // Nothing beyond the detector pass, the importance read, the single
    // construction, the description call, and the single registration was
    // issued: six lookups at context creation, then thirteen calls.
    assert_eq!(host.log.len(), 19);
}

#[test]
fn channel_registration_propagates_construction_failure() {
    let (mut host, env) = setup();
    add_version_metadata(&mut host, 30, 26);
    add_channel_registration(&mut host);
    host.add_member(
        MemberKind::Ctor,
        23,
        "<init>",
        "(Ljava/lang/String;Ljava/lang/CharSequence;I)V",
        Reply::Fail,
    );
    let cfg = NotificationChannel {
        id: "alerts",
        name: "Alerts".to_string(),
        desc: None,
        importance: Importance::Default,
    };
    let r = create_notification_channel(cfg, env, &mut host);
    assert!(matches!(r, Err(HostError::Malformed)));
}

#[test]
fn importance_names_follow_host_constants() {
    assert_eq!(Importance::Default.internal_name(), "IMPORTANCE_DEFAULT");
    assert_eq!(Importance::High.internal_name(), "IMPORTANCE_HIGH");
    assert_eq!(Importance::Low.internal_name(), "IMPORTANCE_LOW");
    assert_eq!(Importance::Max.internal_name(), "IMPORTANCE_MAX");
    assert_eq!(Importance::Min.internal_name(), "IMPORTANCE_MIN");
    assert_eq!(Importance::NoImportance.internal_name(), "IMPORTANCE_NONE");
    assert_eq!(Importance::Unspecified.internal_name(), "IMPORTANCE_UNSPECIFIED");
}

#[test]
fn importance_value_reads_host_constant() {
    let (mut host, _env) = setup();
    host.add_class("android/app/NotificationManager", 22);
    host.add_member(MemberKind::StaticField, 22, "IMPORTANCE_HIGH", "I", Reply::Value(Value::Int(4)));
    assert_eq!(Importance::High.internal_value(&mut host).unwrap(), 4);
    // A constant of the wrong shape is a wrong-type failure.
    host.add_member(
        MemberKind::StaticField,
        22,
        "IMPORTANCE_HIGH",
        "I",
        Reply::Value(Value::Str("four".to_string())),
    );
    assert!(matches!(
        Importance::High.internal_value(&mut host),
        Err(HostError::WrongType)
    ));
}

#[test]
fn importance_value_fails_when_manager_class_missing() {
    let (mut host, _env) = setup();
    let r = Importance::Low.internal_value(&mut host);
    assert!(matches!(r, Err(HostError::ExceptionPending)));
    assert!(host.has_pending_fault());
}

#[test]
fn probe_instance_field_uses_field_ignore_set() {
    let (mut host, env) = setup();
    // The field exists on this object: found.
    host.add_member(
        MemberKind::InstanceField,
        33,
        "flags",
        "I",
        Reply::Value(Value::Int(12)),
    );
    let r = env.try_get_field(&mut host, 33, "flags", "I");
    assert!(matches!(r, Ok(Some(Value::Int(12)))));
    // A missing instance field is absence, not failure.
    let r = env.try_get_field(&mut host, 33, "gone", "I");
    assert!(matches!(r, Ok(None)));
    assert!(!host.has_pending_fault());
}

#[test]
fn probe_static_method_uses_method_ignore_set() {
    let (mut host, env) = setup();
    host.add_class("android/app/PendingIntent", 85);
    // The static method is missing: the synthesized method-not-found
    // exception counts as absence for a static method probe.
    let r = env.try_call_static_method(
        &mut host,
        85,
        "getActivity",
        "(Landroid/content/Context;ILandroid/content/Intent;I)Landroid/app/PendingIntent;",
        Vec::new(),
    );
    assert!(matches!(r, Ok(None)));
    assert!(!host.has_pending_fault());
}
