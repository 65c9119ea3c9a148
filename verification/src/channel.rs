//! Notification channels, and the feature detector that gates them.
//!
//! Channels exist only from a certain host release on.  The detector probes
//! the version metadata of the running host — the version-info class, the
//! version-codes class, the running version constant and the named threshold
//! constant — and reports the feature unavailable if any of them is absent,
//! rather than raising.  Registration of a channel is gated on the detector:
//! on a host without the feature it is a no-op that returns success and
//! issues no registration call.

use vstd::prelude::*;

use crate::host::as_int_result;
use crate::host::as_object_result;
use crate::host::class_lookup;
use crate::host::fault_disciplined;
use crate::host::is_find_class;
use crate::host::is_member_call;
use crate::host::is_single_text_call;
use crate::host::log_extends;
use crate::host::member_outcome;
use crate::host::pending_is;
use crate::host::plain_call_result;
use crate::host::queries_only;
use crate::host::same_config;
use crate::host::unit_result;
use crate::host::Call;
use crate::host::Handle;
use crate::host::Host;
use crate::host::HostError;
use crate::host::MemberKind;
use crate::host::MemberOutcome;
use crate::host::Value;
use crate::probe::probe_static_int;
use crate::probe::static_int_fault_state;
use crate::probe::CompatEnv;
use crate::probe::FlagView;

verus! {

/// The seven-way importance level of a notification channel.
#[derive(Copy, Clone, Debug, Hash, PartialEq, Eq, Structural)]
pub enum Importance {
    Default,
    High,
    Low,
    Max,
    Min,
    NoImportance,
    Unspecified,
}

impl Importance {
    /// The name of the host-side integer constant for this level.
    pub open spec fn spec_internal_name(self) -> Seq<char> {
        match self {
            Importance::Default => "IMPORTANCE_DEFAULT"@,
            Importance::High => "IMPORTANCE_HIGH"@,
            Importance::Low => "IMPORTANCE_LOW"@,
            Importance::Max => "IMPORTANCE_MAX"@,
            Importance::Min => "IMPORTANCE_MIN"@,
            Importance::NoImportance => "IMPORTANCE_NONE"@,
            Importance::Unspecified => "IMPORTANCE_UNSPECIFIED"@,
        }
    }

    /// The name of the host-side integer constant for this level.
    pub fn internal_name(&self) -> (r: &'static str)
        ensures
            r@ == self.spec_internal_name(),
    {
        match self {
            Importance::Default => "IMPORTANCE_DEFAULT",
            Importance::High => "IMPORTANCE_HIGH",
            Importance::Low => "IMPORTANCE_LOW",
            Importance::Max => "IMPORTANCE_MAX",
            Importance::Min => "IMPORTANCE_MIN",
            Importance::NoImportance => "IMPORTANCE_NONE",
            Importance::Unspecified => "IMPORTANCE_UNSPECIFIED",
        }
    }

    /// Read the host's integer value of this importance level: a plain
    /// (unprobed) static field read on the notification manager class.
    pub fn internal_value(&self, host: &mut Host) -> (r: Result<i32, HostError>)
        requires
            old(host).pending is None,
        ensures
            same_config(*final(host), *old(host)),
            queries_only(*old(host), *final(host)),
            fault_disciplined(r, *final(host)),
            r == spec_importance_value(*old(host), *self),
            match class_lookup(old(host).classes@, "android/app/NotificationManager"@) {
                None => final(host).log@.len() == old(host).log@.len() + 1 && is_find_class(
                    final(host).log@[old(host).log@.len() as int],
                    "android/app/NotificationManager"@,
                ),
                Some(c) => {
                    &&& final(host).log@.len() == old(host).log@.len() + 2
                    &&& is_find_class(
                        final(host).log@[old(host).log@.len() as int],
                        "android/app/NotificationManager"@,
                    )
                    &&& is_member_call(
                        final(host).log@[old(host).log@.len() as int + 1],
                        MemberKind::StaticField,
                        c,
                        self.spec_internal_name(),
                        "I"@,
                        Seq::<Value>::empty(),
                    )
                    &&& (match member_outcome(
                        *old(host),
                        MemberKind::StaticField,
                        c,
                        self.spec_internal_name(),
                        "I"@,
                    ) {
                        MemberOutcome::Throws(e) => pending_is(*final(host), e),
                        _ => true,
                    })
                },
            },
    {
        proof {
            broadcast use crate::host::lemma_logged_one_extends;

        }
        let class = host.find_class("android/app/NotificationManager")?;
        let value = host.invoke(
            MemberKind::StaticField,
            class,
            self.internal_name(),
            "I",
            Vec::new(),
        )?;
        value.as_int()
    }
}

/// The host's integer value of an importance level, or the error reading it
/// stops with.
pub open spec fn spec_importance_value(h: Host, imp: Importance) -> Result<i32, HostError> {
    match class_lookup(h.classes@, "android/app/NotificationManager"@) {
        None => Err(HostError::ExceptionPending),
        Some(c) => as_int_result(
            plain_call_result(h, MemberKind::StaticField, c, imp.spec_internal_name(), "I"@),
        ),
    }
}

/// The identifier of a notification channel, stable across runs.
pub type NotificationChannelID<'a> = &'a str;

/// A channel descriptor: a transient value object handed to registration.
/// The host persists the channel once it is registered.
#[derive(Debug)]
pub struct NotificationChannel<'a> {
    pub id: NotificationChannelID<'a>,
    pub name: String,
    pub desc: Option<String>,
    pub importance: Importance,
}

/// What the feature detector concludes on a host: the channel feature is
/// available, unavailable (some version symbol is absent or the version is
/// too old), or the detection itself failed for a real reason.
pub enum Availability {
    Available,
    Unavailable,
    Failed,
}

/// The detector's conclusion on host `h`, for a canonical execution
/// context: each step probes one version symbol, absence at any step means
/// unavailable, and a version at or past the threshold means available.
pub open spec fn channel_feature(h: Host, env: CompatEnv) -> Availability {
    match class_lookup(h.classes@, "android/os/Build$VERSION"@) {
        None => Availability::Unavailable,
        Some(version_class) => match class_lookup(h.classes@, "android/os/Build$VERSION_CODES"@) {
            None => Availability::Unavailable,
            Some(codes) => match probe_static_int(h, env, version_class, "SDK_INT"@) {
                FlagView::Faulty => Availability::Failed,
                FlagView::Missing => Availability::Unavailable,
                FlagView::Present(sdk) => match probe_static_int(h, env, codes, "O"@) {
                    FlagView::Faulty => Availability::Failed,
                    FlagView::Missing => Availability::Unavailable,
                    FlagView::Present(o) => if sdk >= o {
                        Availability::Available
                    } else {
                        Availability::Unavailable
                    },
                },
            },
        },
    }
}

/// The four records of a full detector pass, in order starting at the end
/// of `h0`'s log: the two class lookups, then the running-version read,
/// then the threshold read.
pub open spec fn detector_records(h0: Host, h1: Host, vc: Handle, codes: Handle) -> bool {
    let base = h0.log@.len() as int;
    &&& is_find_class(h1.log@[base], "android/os/Build$VERSION"@)
    &&& is_find_class(h1.log@[base + 1], "android/os/Build$VERSION_CODES"@)
    &&& is_member_call(
        h1.log@[base + 2],
        MemberKind::StaticField,
        vc,
        "SDK_INT"@,
        "I"@,
        Seq::<Value>::empty(),
    )
    &&& is_member_call(
        h1.log@[base + 3],
        MemberKind::StaticField,
        codes,
        "O"@,
        "I"@,
        Seq::<Value>::empty(),
    )
}

/// A full detector pass issued exactly its four calls and nothing else.
pub open spec fn detector_log(h0: Host, h1: Host) -> bool {
    match (
        class_lookup(h0.classes@, "android/os/Build$VERSION"@),
        class_lookup(h0.classes@, "android/os/Build$VERSION_CODES"@),
    ) {
        (Some(vc), Some(codes)) => {
            &&& h1.log@.len() == h0.log@.len() + 4
            &&& detector_records(h0, h1, vc, codes)
        },
        _ => false,
    }
}

/// Whether the channel feature exists on the running host: probe the
/// version-info class, the version-codes class, the running version
/// constant and the threshold constant, treating absence of any of them as
/// "unavailable" rather than raising.
pub fn notification_channel_available(env: CompatEnv, host: &mut Host) -> (r: Result<
    bool,
    HostError,
>)
    requires
        old(host).pending is None,
        env.canonical(),
    ensures
        same_config(*final(host), *old(host)),
        queries_only(*old(host), *final(host)),
        fault_disciplined(r, *final(host)),
        match channel_feature(*old(host), env) {
            Availability::Available => r == Ok::<bool, HostError>(true) && detector_log(
                *old(host),
                *final(host),
            ),
            Availability::Unavailable => r == Ok::<bool, HostError>(false),
            Availability::Failed => match r {
                Err(e) => (match (
                    class_lookup(old(host).classes@, "android/os/Build$VERSION"@),
                    class_lookup(old(host).classes@, "android/os/Build$VERSION_CODES"@),
                ) {
                    (Some(vc), Some(codes)) => if probe_static_int(
                        *old(host),
                        env,
                        vc,
                        "SDK_INT"@,
                    ) is Faulty {
                        static_int_fault_state(*old(host), *final(host), env, vc, "SDK_INT"@, e)
                    } else {
                        static_int_fault_state(*old(host), *final(host), env, codes, "O"@, e)
                    },
                    _ => false,
                }),
                Ok(_) => false,
            },
        },
        r is Ok ==> final(host).pending is None,
{
    proof {
        broadcast use crate::host::lemma_logged_one_extends;

        assert(env.class_ignore()[1] == crate::host::NO_CLASS_DEF_FOUND_ERROR);
        assert(env.class_ignore().contains(crate::host::NO_CLASS_DEF_FOUND_ERROR));
        assert(env.field_ignore()[1] == crate::host::NO_SUCH_FIELD_ERROR);
        assert(env.field_ignore().contains(crate::host::NO_SUCH_FIELD_ERROR));
    }
    let version_class = match env.try_find_class(host, "android/os/Build$VERSION")? {
        Some(x) => x,
        None => {
            return Ok(false);
        },
    };
    let version_codes = match env.try_find_class(host, "android/os/Build$VERSION_CODES")? {
        Some(x) => x,
        None => {
            return Ok(false);
        },
    };
    let version_value = match env.probe_static_int_field(host, version_class, "SDK_INT")? {
        Some(x) => x,
        None => {
            return Ok(false);
        },
    };
    let o_version = match env.probe_static_int_field(host, version_codes, "O")? {
        Some(x) => x,
        None => {
            return Ok(false);
        },
    };
    Ok(version_value >= o_version)
}

/// The channel object registration constructs, or the error constructing it
/// stops with.
pub open spec fn spec_channel_object(h: Host) -> Result<Handle, HostError> {
    match class_lookup(h.classes@, "android/app/NotificationChannel"@) {
        None => Err(HostError::ExceptionPending),
        Some(c) => as_object_result(
            plain_call_result(
                h,
                MemberKind::Ctor,
                c,
                "<init>"@,
                "(Ljava/lang/String;Ljava/lang/CharSequence;I)V"@,
            ),
        ),
    }
}

/// The notification-delivery service object of the host, or the error
/// resolving it stops with.
pub open spec fn spec_notification_service(h: Host, context: Handle) -> Result<
    Handle,
    HostError,
> {
    match class_lookup(h.classes@, "android/content/Context"@) {
        None => Err(HostError::ExceptionPending),
        Some(c) => match as_object_result(
            plain_call_result(
                h,
                MemberKind::StaticField,
                c,
                "NOTIFICATION_SERVICE"@,
                "Ljava/lang/String;"@,
            ),
        ) {
            Err(e) => Err(e),
            Ok(_service_name) => as_object_result(
                plain_call_result(
                    h,
                    MemberKind::Method,
                    context,
                    "getSystemService"@,
                    "(Ljava/lang/String;)Ljava/lang/Object;"@,
                ),
            ),
        },
    }
}

/// What registering a channel does on host `h` once the feature was found
/// available: the importance value is read, the channel object constructed,
/// its description set when one is given, the delivery service resolved,
/// and the channel handed to it.
pub open spec fn spec_register(h: Host, env: CompatEnv, imp: Importance, has_desc: bool)
    -> Result<(), HostError> {
    match spec_importance_value(h, imp) {
        Err(e) => Err(e),
        Ok(_importance) => match spec_channel_object(h) {
            Err(e) => Err(e),
            Ok(channel) => {
                let desc_step = if has_desc {
                    unit_result(
                        plain_call_result(
                            h,
                            MemberKind::Method,
                            channel,
                            "setDescription"@,
                            "(Ljava/lang/String;)V"@,
                        ),
                    )
                } else {
                    Ok(())
                };
                match desc_step {
                    Err(e) => Err(e),
                    Ok(_) => match spec_notification_service(h, env.context) {
                        Err(e) => Err(e),
                        Ok(manager) => unit_result(
                            plain_call_result(
                                h,
                                MemberKind::Method,
                                manager,
                                "createNotificationChannel"@,
                                "(Landroid/app/NotificationChannel;)V"@,
                            ),
                        ),
                    },
                }
            },
        },
    }
}

/// The call record is the channel constructor carrying the identifier, the
/// display name and the importance value, in the host's calling convention.
pub open spec fn is_channel_ctor_call(
    c: Call,
    class: Handle,
    id: Seq<char>,
    name: Seq<char>,
    importance: i32,
) -> bool {
    match c {
        Call::Member { kind, target, name: n, sig, args } => {
            &&& kind == MemberKind::Ctor
            &&& target == class
            &&& n@ == "<init>"@
            &&& sig@ == "(Ljava/lang/String;Ljava/lang/CharSequence;I)V"@
            &&& args@.len() == 3
            &&& match args@[0] {
                Value::Str(s) => s@ == id,
                _ => false,
            }
            &&& match args@[1] {
                Value::Str(s) => s@ == name,
                _ => false,
            }
            &&& args@[2] == Value::Int(importance)
        },
        _ => false,
    }
}

/// The exact calls a successful registration issues after the detector
/// found the feature available: the full detector pass, the importance
/// read, then one channel construction, the description call exactly when a
/// description is given, the service resolution, and one registration —
/// nothing else.
pub open spec fn registration_log(
    h0: Host,
    h1: Host,
    env: CompatEnv,
    id: Seq<char>,
    name: Seq<char>,
    has_desc: bool,
    desc: Seq<char>,
    imp: Importance,
) -> bool {
    let base = h0.log@.len() as int;
    let d: int = if has_desc {
        1
    } else {
        0
    };
    match (
        class_lookup(h0.classes@, "android/app/NotificationManager"@),
        class_lookup(h0.classes@, "android/app/NotificationChannel"@),
        class_lookup(h0.classes@, "android/content/Context"@),
    ) {
        (Some(nm), Some(nc), Some(ctx_class)) => {
            &&& h1.log@.len() == base + 12 + d
            &&& (match (
                class_lookup(h0.classes@, "android/os/Build$VERSION"@),
                class_lookup(h0.classes@, "android/os/Build$VERSION_CODES"@),
            ) {
                (Some(vc), Some(codes)) => detector_records(h0, h1, vc, codes),
                _ => false,
            })
            &&& is_find_class(h1.log@[base + 4], "android/app/NotificationManager"@)
            &&& is_member_call(
                h1.log@[base + 5],
                MemberKind::StaticField,
                nm,
                imp.spec_internal_name(),
                "I"@,
                Seq::<Value>::empty(),
            )
            &&& is_find_class(h1.log@[base + 6], "android/app/NotificationChannel"@)
            &&& (match spec_importance_value(h0, imp) {
                Ok(iv) => is_channel_ctor_call(h1.log@[base + 7], nc, id, name, iv),
                Err(_) => false,
            })
            &&& (has_desc ==> (match spec_channel_object(h0) {
                Ok(channel) => is_single_text_call(
                    h1.log@[base + 8],
                    channel,
                    "setDescription"@,
                    desc,
                ),
                Err(_) => false,
            }))
            &&& is_find_class(h1.log@[base + 8 + d], "android/content/Context"@)
            &&& is_member_call(
                h1.log@[base + 9 + d],
                MemberKind::StaticField,
                ctx_class,
                "NOTIFICATION_SERVICE"@,
                "Ljava/lang/String;"@,
                Seq::<Value>::empty(),
            )
            &&& (match as_object_result(
                plain_call_result(
                    h0,
                    MemberKind::StaticField,
                    ctx_class,
                    "NOTIFICATION_SERVICE"@,
                    "Ljava/lang/String;"@,
                ),
            ) {
                Ok(service) => is_member_call(
                    h1.log@[base + 10 + d],
                    MemberKind::Method,
                    env.context,
                    "getSystemService"@,
                    "(Ljava/lang/String;)Ljava/lang/Object;"@,
                    seq![Value::Object(service)],
                ),
                Err(_) => false,
            })
            &&& (match (spec_channel_object(h0), spec_notification_service(h0, env.context)) {
                (Ok(channel), Ok(manager)) => is_member_call(
                    h1.log@[base + 11 + d],
                    MemberKind::Method,
                    manager,
                    "createNotificationChannel"@,
                    "(Landroid/app/NotificationChannel;)V"@,
                    seq![Value::Object(channel)],
                ),
                _ => false,
            })
        },
        _ => false,
    }
}

/// Register a notification channel with the host, gated on the feature
/// detector.
///
/// On a host where the channel feature is unavailable this is a no-op that
/// returns success: the host is only queried, never asked to construct or
/// run anything, and the caller must not assume a channel object exists.
/// Where the feature is available, the channel is constructed and handed to
/// the host's delivery service; any failure on that path propagates.
pub fn create_notification_channel(
    channel_cfg: NotificationChannel<'_>,
    env: CompatEnv,
    host: &mut Host,
) -> (r: Result<(), HostError>)
    requires
        old(host).pending is None,
        env.canonical(),
    ensures
        same_config(*final(host), *old(host)),
        log_extends(*old(host), *final(host)),
        fault_disciplined(r, *final(host)),
        match channel_feature(*old(host), env) {
            Availability::Unavailable => r == Ok::<(), HostError>(()) && queries_only(
                *old(host),
                *final(host),
            ),
            Availability::Failed => match r {
                Err(e) => (match (
                    class_lookup(old(host).classes@, "android/os/Build$VERSION"@),
                    class_lookup(old(host).classes@, "android/os/Build$VERSION_CODES"@),
                ) {
                    (Some(vc), Some(codes)) => if probe_static_int(
                        *old(host),
                        env,
                        vc,
                        "SDK_INT"@,
                    ) is Faulty {
                        static_int_fault_state(*old(host), *final(host), env, vc, "SDK_INT"@, e)
                    } else {
                        static_int_fault_state(*old(host), *final(host), env, codes, "O"@, e)
                    },
                    _ => false,
                }),
                Ok(_) => false,
            },
            Availability::Available => {
                &&& r == spec_register(
                    *old(host),
                    env,
                    channel_cfg.importance,
                    channel_cfg.desc is Some,
                )
                &&& r is Ok ==> (match channel_cfg.desc {
                    Some(d) => registration_log(
                        *old(host),
                        *final(host),
                        env,
                        channel_cfg.id@,
                        channel_cfg.name@,
                        true,
                        d@,
                        channel_cfg.importance,
                    ),
                    None => registration_log(
                        *old(host),
                        *final(host),
                        env,
                        channel_cfg.id@,
                        channel_cfg.name@,
                        false,
                        Seq::<char>::empty(),
                        channel_cfg.importance,
                    ),
                })
            },
        },
{
    proof {
        broadcast use crate::host::lemma_logged_one_extends;

    }
    if !notification_channel_available(env, host)? {
        return Ok(());
    }
    let importance = channel_cfg.importance.internal_value(host)?;
    let channel_class = host.find_class("android/app/NotificationChannel")?;
    let mut ctor_args: Vec<Value> = Vec::new();
    ctor_args.push(Value::Str(channel_cfg.id.to_owned()));
    ctor_args.push(Value::Str(channel_cfg.name.clone()));
    ctor_args.push(Value::Int(importance));
    let channel = host.invoke(
        MemberKind::Ctor,
        channel_class,
        "<init>",
        "(Ljava/lang/String;Ljava/lang/CharSequence;I)V",
        ctor_args,
    )?.as_object()?;
    match &channel_cfg.desc {
        Some(desc) => {
            let mut desc_args: Vec<Value> = Vec::new();
            desc_args.push(Value::Str(desc.clone()));
            host.invoke(
                MemberKind::Method,
                channel,
                "setDescription",
                "(Ljava/lang/String;)V",
                desc_args,
            )?;
        },
        None => {},
    }
    let context_class = host.find_class("android/content/Context")?;
    let service_name = host.invoke(
        MemberKind::StaticField,
        context_class,
        "NOTIFICATION_SERVICE",
        "Ljava/lang/String;",
        Vec::new(),
    )?.as_object()?;
    let mut service_args: Vec<Value> = Vec::new();
    service_args.push(Value::Object(service_name));
    let manager = host.invoke(
        MemberKind::Method,
        env.context,
        "getSystemService",
        "(Ljava/lang/String;)Ljava/lang/Object;",
        service_args,
    )?.as_object()?;
    let mut register_args: Vec<Value> = Vec::new();
    register_args.push(Value::Object(channel));
    host.invoke(
        MemberKind::Method,
        manager,
        "createNotificationChannel",
        "(Landroid/app/NotificationChannel;)V",
        register_args,
    )?;
    Ok(())
}

} // verus!
