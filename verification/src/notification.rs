//! Version-gated notification construction and dispatch.
//!
//! The notification builder of the host gained a richer constructor (taking
//! a channel identifier) and a dedicated finalize call only on later
//! releases.  Construction and finalization therefore go through the
//! version-gated selector shape: try the richer path through the probe, fall
//! back to the simpler always-available path only on confirmed absence, and
//! propagate every other failure without falling back.
//!
//! The module also loads the host's bag of activity-intent flag constants:
//! each constant is either required on every release or optional from some
//! release on, and a required constant that turns out to be absent aborts
//! the load with an explicit error instead of a partially filled bag.

use vstd::prelude::*;

use crate::channel::spec_notification_service;
use crate::channel::NotificationChannelID;
use crate::host::as_object_result;
use crate::host::class_lookup;
use crate::host::fault_disciplined;
use crate::host::is_find_class;
use crate::host::is_member_call;
use crate::host::is_single_text_call;
use crate::host::log_extends;
use crate::host::logged_one;
use crate::host::member_outcome;
use crate::host::object_class_lookup;
use crate::host::plain_call_result;
use crate::host::queries_only;
use crate::host::same_config;
use crate::host::unit_result;
use crate::host::Call;
use crate::host::Handle;
use crate::host::Host;
use crate::host::HostError;
use crate::host::MemberKind;
use crate::host::MemberOutcome;
use crate::host::Value;
use crate::host::pending_is;
use crate::probe::matches_ignore;
use crate::probe::static_int_fault_state;
use crate::probe::probe_static_int;
use crate::probe::CompatEnv;
use crate::probe::FlagView;

verus! {

/// The activity-intent flag constants of the host: a required field is
/// available on every release, an optional one only from some release on
/// and is `None` where the running host does not have it.
#[derive(Copy, Clone, Debug, PartialEq, Hash)]
pub struct ActivityFlags {
    pub brought_to_front: i32,
    pub clear_task: Option<i32>,
    pub clear_top: i32,
    pub clear_when_task_reset: Option<i32>,
    pub exclude_from_recents: i32,
    pub forward_result: i32,
    pub launched_from_history: i32,
    pub launch_adjacent: Option<i32>,
    pub match_external: Option<i32>,
    pub multiple_task: i32,
    pub new_document: Option<i32>,
    pub new_task: i32,
    pub no_animation: Option<i32>,
    pub no_history: i32,
    pub no_user_action: Option<i32>,
    pub previous_is_top: i32,
    pub reorder_to_front: Option<i32>,
    pub require_default: Option<i32>,
    pub require_non_browser: Option<i32>,
    pub reset_task_if_needed: i32,
    pub retain_in_recents: Option<i32>,
    pub single_top: Option<i32>,
    pub task_on_home: Option<i32>,
}

/// The value of an optional flag on host `h`: its integer when present,
/// `None` when confirmed absent.  Meaningful only where the probe does not
/// fail.
pub open spec fn opt_flag(h: Host, env: CompatEnv, intent: Handle, name: Seq<char>) -> Option<
    i32,
> {
    match probe_static_int(h, env, intent, name) {
        FlagView::Present(k) => Some(k),
        _ => None,
    }
}

/// The value of a required flag on host `h`.  Meaningful only where the
/// flag is present.
pub open spec fn req_flag(h: Host, env: CompatEnv, intent: Handle, name: Seq<char>) -> i32 {
    match probe_static_int(h, env, intent, name) {
        FlagView::Present(k) => k,
        _ => 0,
    }
}

/// The flag bag can be loaded from host `h`: no probe fails for a real
/// reason, and every required constant is present.
pub open spec fn flags_loadable(h: Host, env: CompatEnv, intent: Handle) -> bool {
    &&& probe_static_int(h, env, intent, "FLAG_ACTIVITY_BROUGHT_TO_FRONT"@) is Present
    &&& !(probe_static_int(h, env, intent, "FLAG_ACTIVITY_CLEAR_TASK"@) is Faulty)
    &&& probe_static_int(h, env, intent, "FLAG_ACTIVITY_CLEAR_TOP"@) is Present
    &&& !(probe_static_int(h, env, intent, "FLAG_ACTIVITY_CLEAR_WHEN_TASK_RESET"@) is Faulty)
    &&& probe_static_int(h, env, intent, "FLAG_ACTIVITY_EXCLUDE_FROM_RECENTS"@) is Present
    &&& probe_static_int(h, env, intent, "FLAG_ACTIVITY_FORWARD_RESULT"@) is Present
    &&& probe_static_int(h, env, intent, "FLAG_ACTIVITY_LAUNCHED_FROM_HISTORY"@) is Present
    &&& !(probe_static_int(h, env, intent, "FLAG_ACTIVITY_LAUNCH_ADJACENT"@) is Faulty)
    &&& !(probe_static_int(h, env, intent, "FLAG_ACTIVITY_MATCH_EXTERNAL"@) is Faulty)
    &&& probe_static_int(h, env, intent, "FLAG_ACTIVITY_MULTIPLE_TASK"@) is Present
    &&& !(probe_static_int(h, env, intent, "FLAG_ACTIVITY_NEW_DOCUMENT"@) is Faulty)
    &&& probe_static_int(h, env, intent, "FLAG_ACTIVITY_NEW_TASK"@) is Present
    &&& !(probe_static_int(h, env, intent, "FLAG_ACTIVITY_NO_ANIMATION"@) is Faulty)
    &&& probe_static_int(h, env, intent, "FLAG_ACTIVITY_NO_HISTORY"@) is Present
    &&& !(probe_static_int(h, env, intent, "FLAG_ACTIVITY_NO_USER_ACTION"@) is Faulty)
    &&& probe_static_int(h, env, intent, "FLAG_ACTIVITY_PREVIOUS_IS_TOP"@) is Present
    &&& !(probe_static_int(h, env, intent, "FLAG_ACTIVITY_REORDER_TO_FRONT"@) is Faulty)
    &&& !(probe_static_int(h, env, intent, "FLAG_ACTIVITY_REQUIRE_DEFAULT"@) is Faulty)
    &&& !(probe_static_int(h, env, intent, "FLAG_ACTIVITY_REQUIRE_NON_BROWSER"@) is Faulty)
    &&& probe_static_int(h, env, intent, "FLAG_ACTIVITY_RESET_TASK_IF_NEEDED"@) is Present
    &&& !(probe_static_int(h, env, intent, "FLAG_ACTIVITY_RETAIN_IN_RECENTS"@) is Faulty)
    &&& !(probe_static_int(h, env, intent, "FLAG_ACTIVITY_SINGLE_TOP"@) is Faulty)
    &&& !(probe_static_int(h, env, intent, "FLAG_ACTIVITY_TASK_ON_HOME"@) is Faulty)
}

/// The name is one of the flag constants available on every host release.
pub open spec fn is_required_flag_name(n: Seq<char>) -> bool {
    ||| n == "FLAG_ACTIVITY_BROUGHT_TO_FRONT"@
    ||| n == "FLAG_ACTIVITY_CLEAR_TOP"@
    ||| n == "FLAG_ACTIVITY_EXCLUDE_FROM_RECENTS"@
    ||| n == "FLAG_ACTIVITY_FORWARD_RESULT"@
    ||| n == "FLAG_ACTIVITY_LAUNCHED_FROM_HISTORY"@
    ||| n == "FLAG_ACTIVITY_MULTIPLE_TASK"@
    ||| n == "FLAG_ACTIVITY_NEW_TASK"@
    ||| n == "FLAG_ACTIVITY_NO_HISTORY"@
    ||| n == "FLAG_ACTIVITY_PREVIOUS_IS_TOP"@
    ||| n == "FLAG_ACTIVITY_RESET_TASK_IF_NEEDED"@
}

/// The probe of this flag constant failed for a real reason, leaving
/// exactly this error and this pending-fault state behind.
pub open spec fn flag_fault_at(
    h0: Host,
    h1: Host,
    env: CompatEnv,
    intent: Handle,
    n: Seq<char>,
    e: HostError,
) -> bool {
    probe_static_int(h0, env, intent, n) is Faulty && static_int_fault_state(
        h0,
        h1,
        env,
        intent,
        n,
        e,
    )
}

/// Some flag constant's probe failed for a real reason with exactly this
/// error and this pending-fault state.
pub open spec fn some_flag_fault(
    h0: Host,
    h1: Host,
    env: CompatEnv,
    intent: Handle,
    e: HostError,
) -> bool {
    ||| flag_fault_at(h0, h1, env, intent, "FLAG_ACTIVITY_BROUGHT_TO_FRONT"@, e)
    ||| flag_fault_at(h0, h1, env, intent, "FLAG_ACTIVITY_CLEAR_TASK"@, e)
    ||| flag_fault_at(h0, h1, env, intent, "FLAG_ACTIVITY_CLEAR_TOP"@, e)
    ||| flag_fault_at(h0, h1, env, intent, "FLAG_ACTIVITY_CLEAR_WHEN_TASK_RESET"@, e)
    ||| flag_fault_at(h0, h1, env, intent, "FLAG_ACTIVITY_EXCLUDE_FROM_RECENTS"@, e)
    ||| flag_fault_at(h0, h1, env, intent, "FLAG_ACTIVITY_FORWARD_RESULT"@, e)
    ||| flag_fault_at(h0, h1, env, intent, "FLAG_ACTIVITY_LAUNCHED_FROM_HISTORY"@, e)
    ||| flag_fault_at(h0, h1, env, intent, "FLAG_ACTIVITY_LAUNCH_ADJACENT"@, e)
    ||| flag_fault_at(h0, h1, env, intent, "FLAG_ACTIVITY_MATCH_EXTERNAL"@, e)
    ||| flag_fault_at(h0, h1, env, intent, "FLAG_ACTIVITY_MULTIPLE_TASK"@, e)
    ||| flag_fault_at(h0, h1, env, intent, "FLAG_ACTIVITY_NEW_DOCUMENT"@, e)
    ||| flag_fault_at(h0, h1, env, intent, "FLAG_ACTIVITY_NEW_TASK"@, e)
    ||| flag_fault_at(h0, h1, env, intent, "FLAG_ACTIVITY_NO_ANIMATION"@, e)
    ||| flag_fault_at(h0, h1, env, intent, "FLAG_ACTIVITY_NO_HISTORY"@, e)
    ||| flag_fault_at(h0, h1, env, intent, "FLAG_ACTIVITY_NO_USER_ACTION"@, e)
    ||| flag_fault_at(h0, h1, env, intent, "FLAG_ACTIVITY_PREVIOUS_IS_TOP"@, e)
    ||| flag_fault_at(h0, h1, env, intent, "FLAG_ACTIVITY_REORDER_TO_FRONT"@, e)
    ||| flag_fault_at(h0, h1, env, intent, "FLAG_ACTIVITY_REQUIRE_DEFAULT"@, e)
    ||| flag_fault_at(h0, h1, env, intent, "FLAG_ACTIVITY_REQUIRE_NON_BROWSER"@, e)
    ||| flag_fault_at(h0, h1, env, intent, "FLAG_ACTIVITY_RESET_TASK_IF_NEEDED"@, e)
    ||| flag_fault_at(h0, h1, env, intent, "FLAG_ACTIVITY_RETAIN_IN_RECENTS"@, e)
    ||| flag_fault_at(h0, h1, env, intent, "FLAG_ACTIVITY_SINGLE_TOP"@, e)
    ||| flag_fault_at(h0, h1, env, intent, "FLAG_ACTIVITY_TASK_ON_HOME"@, e)
}

/// How a failed flag load reports: an absent required constant is a
/// field-not-found error naming that constant, with no fault pending; any
/// other failure is the exact error of a failed probe, with the fault state
/// that probe leaves behind.
pub open spec fn flag_load_error<T>(
    h0: Host,
    h1: Host,
    env: CompatEnv,
    intent: Handle,
    r: Result<T, HostError>,
) -> bool {
    match r {
        Ok(_) => true,
        Err(HostError::FieldNotFound { name: n, sig: s }) => {
            &&& s@ == "I"@
            &&& is_required_flag_name(n@)
            &&& probe_static_int(h0, env, intent, n@) is Missing
            &&& h1.pending is None
        },
        Err(e) => some_flag_fault(h0, h1, env, intent, e),
    }
}

/// The flag bag as loaded from host `h`.  Meaningful only where
/// [`flags_loadable`] holds.
pub open spec fn loaded_flags(h: Host, env: CompatEnv, intent: Handle) -> ActivityFlags {
    ActivityFlags {
        brought_to_front: req_flag(h, env, intent, "FLAG_ACTIVITY_BROUGHT_TO_FRONT"@),
        clear_task: opt_flag(h, env, intent, "FLAG_ACTIVITY_CLEAR_TASK"@),
        clear_top: req_flag(h, env, intent, "FLAG_ACTIVITY_CLEAR_TOP"@),
        clear_when_task_reset: opt_flag(h, env, intent, "FLAG_ACTIVITY_CLEAR_WHEN_TASK_RESET"@),
        exclude_from_recents: req_flag(h, env, intent, "FLAG_ACTIVITY_EXCLUDE_FROM_RECENTS"@),
        forward_result: req_flag(h, env, intent, "FLAG_ACTIVITY_FORWARD_RESULT"@),
        launched_from_history: req_flag(h, env, intent, "FLAG_ACTIVITY_LAUNCHED_FROM_HISTORY"@),
        launch_adjacent: opt_flag(h, env, intent, "FLAG_ACTIVITY_LAUNCH_ADJACENT"@),
        match_external: opt_flag(h, env, intent, "FLAG_ACTIVITY_MATCH_EXTERNAL"@),
        multiple_task: req_flag(h, env, intent, "FLAG_ACTIVITY_MULTIPLE_TASK"@),
        new_document: opt_flag(h, env, intent, "FLAG_ACTIVITY_NEW_DOCUMENT"@),
        new_task: req_flag(h, env, intent, "FLAG_ACTIVITY_NEW_TASK"@),
        no_animation: opt_flag(h, env, intent, "FLAG_ACTIVITY_NO_ANIMATION"@),
        no_history: req_flag(h, env, intent, "FLAG_ACTIVITY_NO_HISTORY"@),
        no_user_action: opt_flag(h, env, intent, "FLAG_ACTIVITY_NO_USER_ACTION"@),
        previous_is_top: req_flag(h, env, intent, "FLAG_ACTIVITY_PREVIOUS_IS_TOP"@),
        reorder_to_front: opt_flag(h, env, intent, "FLAG_ACTIVITY_REORDER_TO_FRONT"@),
        require_default: opt_flag(h, env, intent, "FLAG_ACTIVITY_REQUIRE_DEFAULT"@),
        require_non_browser: opt_flag(h, env, intent, "FLAG_ACTIVITY_REQUIRE_NON_BROWSER"@),
        reset_task_if_needed: req_flag(h, env, intent, "FLAG_ACTIVITY_RESET_TASK_IF_NEEDED"@),
        retain_in_recents: opt_flag(h, env, intent, "FLAG_ACTIVITY_RETAIN_IN_RECENTS"@),
        single_top: opt_flag(h, env, intent, "FLAG_ACTIVITY_SINGLE_TOP"@),
        task_on_home: opt_flag(h, env, intent, "FLAG_ACTIVITY_TASK_ON_HOME"@),
    }
}

/// Loads the activity-flag constants of one execution context.
pub struct ActivityFlagLoader(pub CompatEnv);

/// Read one required flag constant: a probe whose confirmed absence is a
/// fatal misconfiguration reported as a field-not-found error.
fn load_required(env: &CompatEnv, host: &mut Host, intent: Handle, name: &str) -> (r: Result<
    i32,
    HostError,
>)
    requires
        old(host).pending is None,
    ensures
        same_config(*final(host), *old(host)),
        queries_only(*old(host), *final(host)),
        fault_disciplined(r, *final(host)),
        match probe_static_int(*old(host), *env, intent, name@) {
            FlagView::Present(k) => r == Ok::<i32, HostError>(k) && final(host).pending is None,
            FlagView::Missing => (match r {
                Err(HostError::FieldNotFound { name: n, sig: s }) => n@ == name@ && s@ == "I"@,
                _ => false,
            }) && final(host).pending is None,
            FlagView::Faulty => match r {
                Err(e) => static_int_fault_state(*old(host), *final(host), *env, intent, name@, e),
                Ok(_) => false,
            },
        },
{
    match env.probe_static_int_field(host, intent, name)? {
        Some(k) => Ok(k),
        None => Err(HostError::FieldNotFound { name: name.to_owned(), sig: "I".to_owned() }),
    }
}

impl ActivityFlagLoader {
    /// Load the whole flag bag: resolve the intent class, then probe every
    /// constant in turn.  The load succeeds exactly when the intent class
    /// resolves, no probe fails for a real reason, and every required
    /// constant is present; it then returns precisely the values the host
    /// exposes.
    #[verifier::rlimit(100)]
    pub fn load(&self, host: &mut Host) -> (r: Result<ActivityFlags, HostError>)
        requires
            old(host).pending is None,
            self.0.canonical(),
        ensures
            same_config(*final(host), *old(host)),
            queries_only(*old(host), *final(host)),
            fault_disciplined(r, *final(host)),
            match class_lookup(old(host).classes@, "android/content/Intent"@) {
                None => r == Err::<ActivityFlags, HostError>(HostError::ExceptionPending),
                Some(intent) => {
                    &&& (r is Ok <==> flags_loadable(*old(host), self.0, intent))
                    &&& match r {
                        Ok(f) => f == loaded_flags(*old(host), self.0, intent),
                        Err(_) => true,
                    }
                    &&& flag_load_error(*old(host), *final(host), self.0, intent, r)
                },
            },
    {
        proof {
            broadcast use crate::host::lemma_logged_one_extends;

            assert(self.0.field_ignore()[1] == crate::host::NO_SUCH_FIELD_ERROR);
            assert(self.0.field_ignore().contains(crate::host::NO_SUCH_FIELD_ERROR));
        }
        let intent = host.find_class("android/content/Intent")?;
        let brought_to_front = load_required(&self.0, host, intent, "FLAG_ACTIVITY_BROUGHT_TO_FRONT")?;
        let clear_task = self.0.probe_static_int_field(host, intent, "FLAG_ACTIVITY_CLEAR_TASK")?;
        let clear_top = load_required(&self.0, host, intent, "FLAG_ACTIVITY_CLEAR_TOP")?;
        let clear_when_task_reset = self.0.probe_static_int_field(host, intent, "FLAG_ACTIVITY_CLEAR_WHEN_TASK_RESET")?;
        let exclude_from_recents = load_required(&self.0, host, intent, "FLAG_ACTIVITY_EXCLUDE_FROM_RECENTS")?;
        let forward_result = load_required(&self.0, host, intent, "FLAG_ACTIVITY_FORWARD_RESULT")?;
        let launched_from_history = load_required(&self.0, host, intent, "FLAG_ACTIVITY_LAUNCHED_FROM_HISTORY")?;
        let launch_adjacent = self.0.probe_static_int_field(host, intent, "FLAG_ACTIVITY_LAUNCH_ADJACENT")?;
        let match_external = self.0.probe_static_int_field(host, intent, "FLAG_ACTIVITY_MATCH_EXTERNAL")?;
        let multiple_task = load_required(&self.0, host, intent, "FLAG_ACTIVITY_MULTIPLE_TASK")?;
        let new_document = self.0.probe_static_int_field(host, intent, "FLAG_ACTIVITY_NEW_DOCUMENT")?;
        let new_task = load_required(&self.0, host, intent, "FLAG_ACTIVITY_NEW_TASK")?;
        let no_animation = self.0.probe_static_int_field(host, intent, "FLAG_ACTIVITY_NO_ANIMATION")?;
        let no_history = load_required(&self.0, host, intent, "FLAG_ACTIVITY_NO_HISTORY")?;
        let no_user_action = self.0.probe_static_int_field(host, intent, "FLAG_ACTIVITY_NO_USER_ACTION")?;
        let previous_is_top = load_required(&self.0, host, intent, "FLAG_ACTIVITY_PREVIOUS_IS_TOP")?;
        let reorder_to_front = self.0.probe_static_int_field(host, intent, "FLAG_ACTIVITY_REORDER_TO_FRONT")?;
        let require_default = self.0.probe_static_int_field(host, intent, "FLAG_ACTIVITY_REQUIRE_DEFAULT")?;
        let require_non_browser = self.0.probe_static_int_field(host, intent, "FLAG_ACTIVITY_REQUIRE_NON_BROWSER")?;
        let reset_task_if_needed = load_required(&self.0, host, intent, "FLAG_ACTIVITY_RESET_TASK_IF_NEEDED")?;
        let retain_in_recents = self.0.probe_static_int_field(host, intent, "FLAG_ACTIVITY_RETAIN_IN_RECENTS")?;
        let single_top = self.0.probe_static_int_field(host, intent, "FLAG_ACTIVITY_SINGLE_TOP")?;
        let task_on_home = self.0.probe_static_int_field(host, intent, "FLAG_ACTIVITY_TASK_ON_HOME")?;
        Ok(ActivityFlags {
            brought_to_front,
            clear_task,
            clear_top,
            clear_when_task_reset,
            exclude_from_recents,
            forward_result,
            launched_from_history,
            launch_adjacent,
            match_external,
            multiple_task,
            new_document,
            new_task,
            no_animation,
            no_history,
            no_user_action,
            previous_is_top,
            reorder_to_front,
            require_default,
            require_non_browser,
            reset_task_if_needed,
            retain_in_recents,
            single_top,
            task_on_home,
        })
    }
}

/// The process-wide memoized flag bag: explicitly initialized on first use,
/// read-only afterwards.
#[derive(Debug)]
pub struct ActivityFlagCache {
    pub cached: Option<ActivityFlags>,
}

impl ActivityFlagCache {
    /// An empty cache: nothing loaded yet.
    pub fn new() -> (c: ActivityFlagCache)
        ensures
            c.cached is None,
    {
        ActivityFlagCache { cached: None }
    }
}

/// The memoized activity-flag bag: loaded from the host on first use, then
/// answered from the cache without any cross-boundary call.  A failed load
/// is reported to the caller and leaves the cache empty, so a later call
/// can retry.
pub fn activity_flags(cache: &mut ActivityFlagCache, env: CompatEnv, host: &mut Host) -> (r:
    Result<ActivityFlags, HostError>)
    requires
        old(host).pending is None,
        env.canonical(),
    ensures
        same_config(*final(host), *old(host)),
        queries_only(*old(host), *final(host)),
        fault_disciplined(r, *final(host)),
        match old(cache).cached {
            Some(f) => r == Ok::<ActivityFlags, HostError>(f) && *final(host) == *old(host)
                && final(cache).cached == Some(f),
            None => {
                &&& match class_lookup(old(host).classes@, "android/content/Intent"@) {
                    None => r == Err::<ActivityFlags, HostError>(HostError::ExceptionPending),
                    Some(intent) => {
                        &&& (r is Ok <==> flags_loadable(*old(host), env, intent))
                        &&& match r {
                            Ok(f) => f == loaded_flags(*old(host), env, intent),
                            Err(_) => true,
                        }
                        &&& flag_load_error(*old(host), *final(host), env, intent, r)
                    },
                }
                &&& match r {
                    Ok(f) => final(cache).cached == Some(f),
                    Err(_) => final(cache).cached is None,
                }
            },
        },
{
    match cache.cached {
        Some(f) => Ok(f),
        None => {
            let f = ActivityFlagLoader(env).load(host)?;
            cache.cached = Some(f);
            Ok(f)
        },
    }
}

/// The intent object creation builds, or the error it stops with.
pub open spec fn spec_create_intent(h: Host, env: CompatEnv) -> Result<Handle, HostError> {
    match class_lookup(h.classes@, "android/content/Intent"@) {
        None => Err(HostError::ExceptionPending),
        Some(c) => match object_class_lookup(h.object_classes@, env.context) {
            None => Err(HostError::Malformed),
            Some(_context_class) => match as_object_result(
                plain_call_result(
                    h,
                    MemberKind::Ctor,
                    c,
                    "<init>"@,
                    "(Landroid/content/Context;Ljava/lang/Class;)V"@,
                ),
            ) {
                Err(e) => Err(e),
                Ok(intent) => match unit_result(
                    plain_call_result(
                        h,
                        MemberKind::Method,
                        intent,
                        "setFlags"@,
                        "(I)Landroid/content/Intent;"@,
                    ),
                ) {
                    Err(e) => Err(e),
                    Ok(_) => Ok(intent),
                },
            },
        },
    }
}

/// Create an activity intent for the calling application's own context and
/// set the given flag bits on it.
pub fn create_intent(env: CompatEnv, host: &mut Host, flags: i32) -> (r: Result<
    Handle,
    HostError,
>)
    requires
        old(host).pending is None,
    ensures
        same_config(*final(host), *old(host)),
        log_extends(*old(host), *final(host)),
        fault_disciplined(r, *final(host)),
        r == spec_create_intent(*old(host), env),
        is_find_class(final(host).log@[old(host).log@.len() as int], "android/content/Intent"@),
        match class_lookup(old(host).classes@, "android/content/Intent"@) {
            None => final(host).log@.len() == old(host).log@.len() + 1,
            Some(class) => match object_class_lookup(
                old(host).object_classes@,
                env.context,
            ) {
                None => final(host).log@.len() == old(host).log@.len() + 1,
                Some(context_class) => {
                    &&& is_member_call(
                        final(host).log@[old(host).log@.len() as int + 1],
                        MemberKind::Ctor,
                        class,
                        "<init>"@,
                        "(Landroid/content/Context;Ljava/lang/Class;)V"@,
                        seq![Value::Object(env.context), Value::Object(context_class)],
                    )
                    &&& (match as_object_result(
                        plain_call_result(
                            *old(host),
                            MemberKind::Ctor,
                            class,
                            "<init>"@,
                            "(Landroid/content/Context;Ljava/lang/Class;)V"@,
                        ),
                    ) {
                        Err(_) => final(host).log@.len() == old(host).log@.len() + 2,
                        Ok(intent) => {
                            &&& final(host).log@.len() == old(host).log@.len() + 3
                            &&& is_member_call(
                                final(host).log@[old(host).log@.len() as int + 2],
                                MemberKind::Method,
                                intent,
                                "setFlags"@,
                                "(I)Landroid/content/Intent;"@,
                                seq![Value::Int(flags)],
                            )
                        },
                    })
                },
            },
        },
        r is Ok ==> final(host).pending is None,
{
    proof {
        broadcast use crate::host::lemma_logged_one_extends;

    }
    let class = host.find_class("android/content/Intent")?;
    let context_class = host.get_object_class(env.context)?;
    let mut ctor_args: Vec<Value> = Vec::new();
    ctor_args.push(Value::Object(env.context));
    ctor_args.push(Value::Object(context_class));
    proof {
        assert(ctor_args@ =~= seq![Value::Object(env.context), Value::Object(context_class)]);
    }
    let intent = host.invoke(
        MemberKind::Ctor,
        class,
        "<init>",
        "(Landroid/content/Context;Ljava/lang/Class;)V",
        ctor_args,
    )?.as_object()?;
    let mut flag_args: Vec<Value> = Vec::new();
    flag_args.push(Value::Int(flags));
    proof {
        assert(flag_args@ =~= seq![Value::Int(flags)]);
    }
    host.invoke(MemberKind::Method, intent, "setFlags", "(I)Landroid/content/Intent;", flag_args)?;
    Ok(intent)
}

/// The pending-intent object the host returns for an intent, or the error
/// resolving it stops with.
pub open spec fn spec_pending_intent(h: Host, env: CompatEnv) -> Result<Handle, HostError> {
    match class_lookup(h.classes@, "android/app/PendingIntent"@) {
        None => Err(HostError::ExceptionPending),
        Some(c) => as_object_result(
            plain_call_result(
                h,
                MemberKind::StaticMethod,
                c,
                "getActivity"@,
                "(Landroid/content/Context;ILandroid/content/Intent;I)Landroid/app/PendingIntent;"@,
            ),
        ),
    }
}

/// Wrap an intent in a pending intent for the calling application's own
/// context.
pub fn pending_intent(env: CompatEnv, host: &mut Host, intent: Handle) -> (r: Result<
    Handle,
    HostError,
>)
    requires
        old(host).pending is None,
    ensures
        same_config(*final(host), *old(host)),
        log_extends(*old(host), *final(host)),
        fault_disciplined(r, *final(host)),
        r == spec_pending_intent(*old(host), env),
        is_find_class(
            final(host).log@[old(host).log@.len() as int],
            "android/app/PendingIntent"@,
        ),
        match class_lookup(old(host).classes@, "android/app/PendingIntent"@) {
            None => final(host).log@.len() == old(host).log@.len() + 1,
            Some(class) => {
                &&& final(host).log@.len() == old(host).log@.len() + 2
                &&& is_member_call(
                    final(host).log@[old(host).log@.len() as int + 1],
                    MemberKind::StaticMethod,
                    class,
                    "getActivity"@,
                    "(Landroid/content/Context;ILandroid/content/Intent;I)Landroid/app/PendingIntent;"@,
                    seq![
                        Value::Object(env.context),
                        Value::Int(0),
                        Value::Object(intent),
                        Value::Int(0),
                    ],
                )
            },
        },
        r is Ok ==> final(host).pending is None,
{
    proof {
        broadcast use crate::host::lemma_logged_one_extends;

    }
    let class = host.find_class("android/app/PendingIntent")?;
    let mut args: Vec<Value> = Vec::new();
    args.push(Value::Object(env.context));
    args.push(Value::Int(0));
    args.push(Value::Object(intent));
    args.push(Value::Int(0));
    proof {
        assert(args@ =~= seq![
            Value::Object(env.context),
            Value::Int(0),
            Value::Object(intent),
            Value::Int(0),
        ]);
    }
    let value = host.invoke(
        MemberKind::StaticMethod,
        class,
        "getActivity",
        "(Landroid/content/Context;ILandroid/content/Intent;I)Landroid/app/PendingIntent;",
        args,
    )?.as_object()?;
    Ok(value)
}

/// What a probed constructor call yields: the object, confirmed absence of
/// the constructor, or the error the probe stops with.
pub open spec fn spec_probed_ctor(h: Host, env: CompatEnv, class: Handle, sig: Seq<char>)
    -> Result<Option<Handle>, HostError> {
    match member_outcome(h, MemberKind::Ctor, class, "<init>"@, sig) {
        MemberOutcome::Returns(Value::Object(o)) => Ok(Some(o)),
        MemberOutcome::Returns(_) => Err(HostError::WrongType),
        MemberOutcome::Throws(e) => if matches_ignore(e, env.method_ignore()) {
            Ok(None)
        } else {
            Err(HostError::ExceptionPending)
        },
        MemberOutcome::Missing(c) => if env.method_ignore().contains(c) {
            Ok(None)
        } else {
            Err(HostError::ExceptionPending)
        },
        MemberOutcome::Breaks => Err(HostError::Malformed),
    }
}

/// The call record is the richer builder constructor: context plus channel
/// identifier.
pub open spec fn is_rich_builder_ctor(
    c: Call,
    class: Handle,
    context: Handle,
    channel_id: Seq<char>,
) -> bool {
    match c {
        Call::Member { kind, target, name, sig, args } => {
            &&& kind == MemberKind::Ctor
            &&& target == class
            &&& name@ == "<init>"@
            &&& sig@ == "(Landroid/content/Context;Ljava/lang/String;)V"@
            &&& args@.len() == 2
            &&& args@[0] == Value::Object(context)
            &&& match args@[1] {
                Value::Str(s) => s@ == channel_id,
                _ => false,
            }
        },
        _ => false,
    }
}

/// The call record is the simpler builder constructor: context alone.
pub open spec fn is_simple_builder_ctor(c: Call, class: Handle, context: Handle) -> bool {
    match c {
        Call::Member { kind, target, name, sig, args } => {
            &&& kind == MemberKind::Ctor
            &&& target == class
            &&& name@ == "<init>"@
            &&& sig@ == "(Landroid/content/Context;)V"@
            &&& args@ == seq![Value::Object(context)]
        },
        _ => false,
    }
}

/// A notification under construction: the host-side builder object and the
/// execution context it was created on.  Setters return the same builder,
/// so calls chain.
#[derive(Debug, Clone, Copy)]
pub struct NotificationBuilder {
    pub internal: Handle,
    pub env: CompatEnv,
}

impl NotificationBuilder {
    /// Construct a builder: try the richer constructor (context and channel
    /// identifier) through the probe; on confirmed absence fall back to the
    /// simpler constructor (context alone), invoked exactly once as a plain
    /// call; on any real failure propagate without falling back.
    pub fn new(env: CompatEnv, host: &mut Host, channel_id: NotificationChannelID<'_>) -> (r:
        Result<NotificationBuilder, HostError>)
        requires
            old(host).pending is None,
        ensures
            same_config(*final(host), *old(host)),
            log_extends(*old(host), *final(host)),
            fault_disciplined(r, *final(host)),
            match class_lookup(old(host).classes@, "android/app/Notification$Builder"@) {
                None => r == Err::<NotificationBuilder, HostError>(HostError::ExceptionPending)
                    && final(host).log@.len() == old(host).log@.len() + 1,
                Some(class) => {
                    &&& is_find_class(
                        final(host).log@[old(host).log@.len() as int],
                        "android/app/Notification$Builder"@,
                    )
                    &&& is_rich_builder_ctor(
                        final(host).log@[old(host).log@.len() as int + 1],
                        class,
                        env.context,
                        channel_id@,
                    )
                    &&& match spec_probed_ctor(
                        *old(host),
                        env,
                        class,
                        "(Landroid/content/Context;Ljava/lang/String;)V"@,
                    ) {
                        Ok(Some(b)) => final(host).log@.len() == old(host).log@.len() + 2
                            && r == Ok::<NotificationBuilder, HostError>(
                            NotificationBuilder { internal: b, env },
                        ) && final(host).pending is None,
                        Ok(None) => {
                            &&& final(host).log@.len() == old(host).log@.len() + 3
                            &&& is_simple_builder_ctor(
                                final(host).log@[old(host).log@.len() as int + 2],
                                class,
                                env.context,
                            )
                            &&& match as_object_result(
                                plain_call_result(
                                    *old(host),
                                    MemberKind::Ctor,
                                    class,
                                    "<init>"@,
                                    "(Landroid/content/Context;)V"@,
                                ),
                            ) {
                                Ok(b) => r == Ok::<NotificationBuilder, HostError>(
                                    NotificationBuilder { internal: b, env },
                                ) && final(host).pending is None,
                                Err(e) => r == Err::<NotificationBuilder, HostError>(e),
                            }
                        },
                        Err(e) => final(host).log@.len() == old(host).log@.len() + 2 && r
                            == Err::<NotificationBuilder, HostError>(e),
                    }
                },
            },
    {
        proof {
            broadcast use crate::host::lemma_logged_one_extends;

        }
        let class = host.find_class("android/app/Notification$Builder")?;
        let mut rich_args: Vec<Value> = Vec::new();
        rich_args.push(Value::Object(env.context));
        rich_args.push(Value::Str(channel_id.to_owned()));
        let built = env.try_new_object(
            host,
            class,
            "(Landroid/content/Context;Ljava/lang/String;)V",
            rich_args,
        )?;
        let builder = match built {
            Some(b) => b,
            None => {
                let mut simple_args: Vec<Value> = Vec::new();
                simple_args.push(Value::Object(env.context));
                proof {
                    assert(simple_args@ =~= seq![Value::Object(env.context)]);
                }
                host.invoke(
                    MemberKind::Ctor,
                    class,
                    "<init>",
                    "(Landroid/content/Context;)V",
                    simple_args,
                )?.as_object()?
            },
        };
        Ok(NotificationBuilder { internal: builder, env })
    }

    /// Attach a pending intent: a plain call, fatal on failure.
    pub fn set_intent(&self, host: &mut Host, intent: Handle) -> (r: Result<
        NotificationBuilder,
        HostError,
    >)
        requires
            old(host).pending is None,
        ensures
            same_config(*final(host), *old(host)),
            logged_one(*old(host), *final(host)),
            fault_disciplined(r, *final(host)),
            is_member_call(
                final(host).log@.last(),
                MemberKind::Method,
                self.internal,
                "setContentIntent"@,
                "(Landroid/app/PendingIntent;)Landroid/app/Notification$Builder;"@,
                seq![Value::Object(intent)],
            ),
            match unit_result(
                plain_call_result(
                    *old(host),
                    MemberKind::Method,
                    self.internal,
                    "setContentIntent"@,
                    "(Landroid/app/PendingIntent;)Landroid/app/Notification$Builder;"@,
                ),
            ) {
                Ok(_) => r == Ok::<NotificationBuilder, HostError>(*self)
                    && final(host).pending is None,
                Err(e) => r == Err::<NotificationBuilder, HostError>(e),
            },
    {
        let mut args: Vec<Value> = Vec::new();
        args.push(Value::Object(intent));
        proof {
            assert(args@ =~= seq![Value::Object(intent)]);
        }
        host.invoke(
            MemberKind::Method,
            self.internal,
            "setContentIntent",
            "(Landroid/app/PendingIntent;)Landroid/app/Notification$Builder;",
            args,
        )?;
        Ok(*self)
    }

    /// Set the title text: a plain call, fatal on failure.
    pub fn set_title(&self, host: &mut Host, title: &str) -> (r: Result<
        NotificationBuilder,
        HostError,
    >)
        requires
            old(host).pending is None,
        ensures
            same_config(*final(host), *old(host)),
            logged_one(*old(host), *final(host)),
            fault_disciplined(r, *final(host)),
            is_single_text_call(
                final(host).log@.last(),
                self.internal,
                "setContentTitle"@,
                title@,
            ),
            match unit_result(
                plain_call_result(
                    *old(host),
                    MemberKind::Method,
                    self.internal,
                    "setContentTitle"@,
                    "(Ljava/lang/CharSequence;)Landroid/app/Notification$Builder;"@,
                ),
            ) {
                Ok(_) => r == Ok::<NotificationBuilder, HostError>(*self)
                    && final(host).pending is None,
                Err(e) => r == Err::<NotificationBuilder, HostError>(e),
            },
    {
        let mut args: Vec<Value> = Vec::new();
        args.push(Value::Str(title.to_owned()));
        host.invoke(
            MemberKind::Method,
            self.internal,
            "setContentTitle",
            "(Ljava/lang/CharSequence;)Landroid/app/Notification$Builder;",
            args,
        )?;
        Ok(*self)
    }

    /// Set the body text: a plain call, fatal on failure.
    pub fn set_content_text(&self, host: &mut Host, content: &str) -> (r: Result<
        NotificationBuilder,
        HostError,
    >)
        requires
            old(host).pending is None,
        ensures
            same_config(*final(host), *old(host)),
            logged_one(*old(host), *final(host)),
            fault_disciplined(r, *final(host)),
            is_single_text_call(
                final(host).log@.last(),
                self.internal,
                "setContentText"@,
                content@,
            ),
            match unit_result(
                plain_call_result(
                    *old(host),
                    MemberKind::Method,
                    self.internal,
                    "setContentText"@,
                    "(Ljava/lang/CharSequence;)Landroid/app/Notification$Builder;"@,
                ),
            ) {
                Ok(_) => r == Ok::<NotificationBuilder, HostError>(*self)
                    && final(host).pending is None,
                Err(e) => r == Err::<NotificationBuilder, HostError>(e),
            },
    {
        let mut args: Vec<Value> = Vec::new();
        args.push(Value::Str(content.to_owned()));
        host.invoke(
            MemberKind::Method,
            self.internal,
            "setContentText",
            "(Ljava/lang/CharSequence;)Landroid/app/Notification$Builder;",
            args,
        )?;
        Ok(*self)
    }

    /// Set whether the notification dismisses itself when activated: a
    /// plain call, fatal on failure.
    pub fn set_auto_cancel(&self, host: &mut Host, auto_cancel: bool) -> (r: Result<
        NotificationBuilder,
        HostError,
    >)
        requires
            old(host).pending is None,
        ensures
            same_config(*final(host), *old(host)),
            logged_one(*old(host), *final(host)),
            fault_disciplined(r, *final(host)),
            is_member_call(
                final(host).log@.last(),
                MemberKind::Method,
                self.internal,
                "setAutoCancel"@,
                "(Z)Landroid/app/Notification$Builder;"@,
                seq![Value::Bool(auto_cancel)],
            ),
            match unit_result(
                plain_call_result(
                    *old(host),
                    MemberKind::Method,
                    self.internal,
                    "setAutoCancel"@,
                    "(Z)Landroid/app/Notification$Builder;"@,
                ),
            ) {
                Ok(_) => r == Ok::<NotificationBuilder, HostError>(*self)
                    && final(host).pending is None,
                Err(e) => r == Err::<NotificationBuilder, HostError>(e),
            },
    {
        let mut args: Vec<Value> = Vec::new();
        args.push(Value::Bool(auto_cancel));
        proof {
            assert(args@ =~= seq![Value::Bool(auto_cancel)]);
        }
        host.invoke(
            MemberKind::Method,
            self.internal,
            "setAutoCancel",
            "(Z)Landroid/app/Notification$Builder;",
            args,
        )?;
        Ok(*self)
    }

    /// Set the icon handle: a plain call, fatal on failure.
    pub fn set_small_icon(&self, host: &mut Host, icon: i32) -> (r: Result<
        NotificationBuilder,
        HostError,
    >)
        requires
            old(host).pending is None,
        ensures
            same_config(*final(host), *old(host)),
            logged_one(*old(host), *final(host)),
            fault_disciplined(r, *final(host)),
            is_member_call(
                final(host).log@.last(),
                MemberKind::Method,
                self.internal,
                "setSmallIcon"@,
                "(I)Landroid/app/Notification$Builder;"@,
                seq![Value::Int(icon)],
            ),
            match unit_result(
                plain_call_result(
                    *old(host),
                    MemberKind::Method,
                    self.internal,
                    "setSmallIcon"@,
                    "(I)Landroid/app/Notification$Builder;"@,
                ),
            ) {
                Ok(_) => r == Ok::<NotificationBuilder, HostError>(*self)
                    && final(host).pending is None,
                Err(e) => r == Err::<NotificationBuilder, HostError>(e),
            },
    {
        let mut args: Vec<Value> = Vec::new();
        args.push(Value::Int(icon));
        proof {
            assert(args@ =~= seq![Value::Int(icon)]);
        }
        host.invoke(
            MemberKind::Method,
            self.internal,
            "setSmallIcon",
            "(I)Landroid/app/Notification$Builder;",
            args,
        )?;
        Ok(*self)
    }

    /// Finalize the notification: try the newer finalize call through the
    /// probe, fall back to the older get-current-state call only on
    /// confirmed absence, and propagate every other failure.
    fn build(&self, host: &mut Host) -> (r: Result<Handle, HostError>)
        requires
            old(host).pending is None,
        ensures
            same_config(*final(host), *old(host)),
            log_extends(*old(host), *final(host)),
            build_log(*old(host), *final(host), self.env, self.internal),
            fault_disciplined(r, *final(host)),
            r == spec_build(*old(host), self.env, self.internal),
            match r {
                Ok(_) => final(host).pending is None,
                Err(_) => true,
            },
            match member_outcome(
                *old(host),
                MemberKind::Method,
                self.internal,
                "build"@,
                "()Landroid/app/Notification;"@,
            ) {
                MemberOutcome::Throws(e) => matches_ignore(e, self.env.method_ignore())
                    || pending_is(*final(host), e),
                _ => true,
            },
            build_absent(*old(host), self.env, self.internal) ==> (match member_outcome(
                *old(host),
                MemberKind::Method,
                self.internal,
                "getNotification"@,
                "()Landroid/app/Notification;"@,
            ) {
                MemberOutcome::Throws(e) => pending_is(*final(host), e),
                _ => true,
            }),
    {
        proof {
            broadcast use crate::host::lemma_logged_one_extends;

        }
        let x = match self.env.try_call_method(
            host,
            self.internal,
            "build",
            "()Landroid/app/Notification;",
            Vec::new(),
        )? {
            Some(v) => v,
            None => host.invoke(
                MemberKind::Method,
                self.internal,
                "getNotification",
                "()Landroid/app/Notification;",
                Vec::new(),
            )?,
        };
        x.as_object()
    }
}

/// What finalizing a builder yields on host `h`: the newer finalize call
/// when the host has it, else the older get-current-state call, with
/// absence of the newer call the only reason to fall back.
pub open spec fn spec_build(h: Host, env: CompatEnv, builder: Handle) -> Result<
    Handle,
    HostError,
> {
    match member_outcome(h, MemberKind::Method, builder, "build"@, "()Landroid/app/Notification;"@) {
        MemberOutcome::Returns(v) => as_object_result(Ok(v)),
        MemberOutcome::Throws(e) => if matches_ignore(e, env.method_ignore()) {
            as_object_result(
                plain_call_result(
                    h,
                    MemberKind::Method,
                    builder,
                    "getNotification"@,
                    "()Landroid/app/Notification;"@,
                ),
            )
        } else {
            Err(HostError::ExceptionPending)
        },
        MemberOutcome::Missing(c) => if env.method_ignore().contains(c) {
            as_object_result(
                plain_call_result(
                    h,
                    MemberKind::Method,
                    builder,
                    "getNotification"@,
                    "()Landroid/app/Notification;"@,
                ),
            )
        } else {
            Err(HostError::ExceptionPending)
        },
        MemberOutcome::Breaks => Err(HostError::Malformed),
    }
}

/// The newer finalize call is confirmed absent on this host, so finalizing
/// falls back to the older get-current-state call.
pub open spec fn build_absent(h: Host, env: CompatEnv, builder: Handle) -> bool {
    match member_outcome(
        h,
        MemberKind::Method,
        builder,
        "build"@,
        "()Landroid/app/Notification;"@,
    ) {
        MemberOutcome::Throws(e) => matches_ignore(e, env.method_ignore()),
        MemberOutcome::Missing(c) => env.method_ignore().contains(c),
        _ => false,
    }
}

/// How many calls finalizing issues: the newer finalize call always, the
/// older one exactly once more when — and only when — the newer one is
/// confirmed absent.
pub open spec fn build_call_count(h: Host, env: CompatEnv, builder: Handle) -> int {
    if build_absent(h, env, builder) {
        2
    } else {
        1
    }
}

/// The records a finalize pass appends, in order starting at the end of
/// `h0`'s log: the newer finalize call, then the older call only on
/// confirmed absence.
pub open spec fn build_records(h0: Host, h1: Host, env: CompatEnv, builder: Handle) -> bool {
    let base = h0.log@.len() as int;
    &&& is_member_call(
        h1.log@[base],
        MemberKind::Method,
        builder,
        "build"@,
        "()Landroid/app/Notification;"@,
        Seq::<Value>::empty(),
    )
    &&& (build_absent(h0, env, builder) ==> is_member_call(
        h1.log@[base + 1],
        MemberKind::Method,
        builder,
        "getNotification"@,
        "()Landroid/app/Notification;"@,
        Seq::<Value>::empty(),
    ))
}

/// A finalize pass appended exactly its own calls and nothing else.
pub open spec fn build_log(h0: Host, h1: Host, env: CompatEnv, builder: Handle) -> bool {
    h1.log@.len() == h0.log@.len() + build_call_count(h0, env, builder) && build_records(
        h0,
        h1,
        env,
        builder,
    )
}

/// A handle to the host's notification-delivery service.
#[derive(Debug, Clone, Copy)]
pub struct NotificationManager {
    pub internal: Handle,
    pub env: CompatEnv,
}

impl NotificationManager {
    /// Resolve the delivery service of the calling application's context:
    /// plain calls, fatal on failure.
    pub fn new(env: CompatEnv, host: &mut Host) -> (r: Result<NotificationManager, HostError>)
        requires
            old(host).pending is None,
        ensures
            same_config(*final(host), *old(host)),
            log_extends(*old(host), *final(host)),
            fault_disciplined(r, *final(host)),
            match spec_notification_service(*old(host), env.context) {
                Ok(m) => r == Ok::<NotificationManager, HostError>(
                    NotificationManager { internal: m, env },
                ) && final(host).pending is None,
                Err(e) => r == Err::<NotificationManager, HostError>(e),
            },
            is_find_class(
                final(host).log@[old(host).log@.len() as int],
                "android/content/Context"@,
            ),
            match class_lookup(old(host).classes@, "android/content/Context"@) {
                None => final(host).log@.len() == old(host).log@.len() + 1,
                Some(context_class) => {
                    &&& is_member_call(
                        final(host).log@[old(host).log@.len() as int + 1],
                        MemberKind::StaticField,
                        context_class,
                        "NOTIFICATION_SERVICE"@,
                        "Ljava/lang/String;"@,
                        Seq::<Value>::empty(),
                    )
                    &&& (match as_object_result(
                        plain_call_result(
                            *old(host),
                            MemberKind::StaticField,
                            context_class,
                            "NOTIFICATION_SERVICE"@,
                            "Ljava/lang/String;"@,
                        ),
                    ) {
                        Err(_) => final(host).log@.len() == old(host).log@.len() + 2,
                        Ok(service) => {
                            &&& final(host).log@.len() == old(host).log@.len() + 3
                            &&& is_member_call(
                                final(host).log@[old(host).log@.len() as int + 2],
                                MemberKind::Method,
                                env.context,
                                "getSystemService"@,
                                "(Ljava/lang/String;)Ljava/lang/Object;"@,
                                seq![Value::Object(service)],
                            )
                        },
                    })
                },
            },
    {
        proof {
            broadcast use crate::host::lemma_logged_one_extends;

        }
        let context_class = host.find_class("android/content/Context")?;
        let service_name = host.invoke(
            MemberKind::StaticField,
            context_class,
            "NOTIFICATION_SERVICE",
            "Ljava/lang/String;",
            Vec::new(),
        )?.as_object()?;
        let mut service_args: Vec<Value> = Vec::new();
        service_args.push(Value::Object(service_name));
        let manager = host.invoke(
            MemberKind::Method,
            env.context,
            "getSystemService",
            "(Ljava/lang/String;)Ljava/lang/Object;",
            service_args,
        )?.as_object()?;
        Ok(NotificationManager { internal: manager, env })
    }

    /// Finalize a notification and submit it under a caller-chosen
    /// identifier.  On success exactly one delivery call was issued, as the
    /// last call of the log, carrying the identifier and the finalized
    /// object — whichever finalize strategy the host supported.  The host
    /// de-duplicates by the identifier; this layer imposes no policy on it.
    pub fn notify(&self, host: &mut Host, notif: &NotificationBuilder, id: i32) -> (r: Result<
        (),
        HostError,
    >)
        requires
            old(host).pending is None,
        ensures
            same_config(*final(host), *old(host)),
            log_extends(*old(host), *final(host)),
            fault_disciplined(r, *final(host)),
            match spec_build(*old(host), notif.env, notif.internal) {
                Err(e) => r == Err::<(), HostError>(e) && build_log(
                    *old(host),
                    *final(host),
                    notif.env,
                    notif.internal,
                ),
                Ok(n) => {
                    &&& final(host).log@.len() == old(host).log@.len() + build_call_count(
                        *old(host),
                        notif.env,
                        notif.internal,
                    ) + 1
                    &&& build_records(*old(host), *final(host), notif.env, notif.internal)
                    &&& is_member_call(
                        final(host).log@.last(),
                        MemberKind::Method,
                        self.internal,
                        "notify"@,
                        "(ILandroid/app/Notification;)V"@,
                        seq![Value::Int(id), Value::Object(n)],
                    )
                    &&& match unit_result(
                        plain_call_result(
                            *old(host),
                            MemberKind::Method,
                            self.internal,
                            "notify"@,
                            "(ILandroid/app/Notification;)V"@,
                        ),
                    ) {
                        Ok(_) => r == Ok::<(), HostError>(()) && final(host).pending is None,
                        Err(e) => r == Err::<(), HostError>(e),
                    }
                },
            },
    {
        proof {
            broadcast use crate::host::lemma_logged_one_extends;

        }
        let notif_obj = notif.build(host)?;
        let mut args: Vec<Value> = Vec::new();
        args.push(Value::Int(id));
        args.push(Value::Object(notif_obj));
        proof {
            assert(args@ =~= seq![Value::Int(id), Value::Object(notif_obj)]);
        }
        host.invoke(
            MemberKind::Method,
            self.internal,
            "notify",
            "(ILandroid/app/Notification;)V",
            args,
        )?;
        Ok(())
    }
}

} // verus!
