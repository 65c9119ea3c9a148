//! The capability probe.
//!
//! A cross-boundary call that addresses a symbol the running host release
//! does not have fails with a pending exception of a well-known signal type.
//! The probe executes such a call once and classifies its outcome three ways:
//! found (`Ok(Some(..))`), confirmed absent (`Ok(None)`), or failed for a
//! real reason (`Err(..)`).  Only confirmed absence is swallowed; every other
//! fault propagates, with the original exception object re-raised so the
//! ultimate caller observes it unchanged.
//!
//! Which signal types count as "absent" is fixed per call kind: class
//! lookups ignore the two class-not-found types, field reads the two
//! field-not-found types, and method, static-method and constructor calls
//! the two method-not-found types.

use vstd::prelude::*;

use crate::host::CLASS_NOT_FOUND_EXCEPTION;
use crate::host::NO_CLASS_DEF_FOUND_ERROR;
use crate::host::NO_SUCH_FIELD_ERROR;
use crate::host::NO_SUCH_FIELD_EXCEPTION;
use crate::host::NO_SUCH_METHOD_ERROR;
use crate::host::NO_SUCH_METHOD_EXCEPTION;
use crate::host::class_lookup;
use crate::host::exc_eq;
use crate::host::fault_disciplined;
use crate::host::is_find_class;
use crate::host::is_member_call;
use crate::host::lemma_logged_one_extends;
use crate::host::logged_one;
use crate::host::member_outcome;
use crate::host::pending_is;
use crate::host::queries_only;
use crate::host::same_config;
use crate::host::Exception;
use crate::host::Handle;
use crate::host::Host;
use crate::host::HostError;
use crate::host::MemberKind;
use crate::host::MemberOutcome;
use crate::host::Value;

verus! {

/// An execution context prepared for probing: the handle of the calling
/// application's root object, plus the six pre-resolved signal-type classes
/// the host uses to report a missing class, field or method.
#[derive(Debug, Clone, Copy, PartialEq, Eq, Structural)]
pub struct CompatEnv {
    pub context: Handle,
    pub class_not_found_exception: Handle,
    pub no_such_field_exception: Handle,
    pub no_such_method_exception: Handle,
    pub no_class_def_found_error: Handle,
    pub no_such_field_error: Handle,
    pub no_such_method_error: Handle,
}

/// The exception is an instance of at least one entry of the ignore set.
pub open spec fn matches_ignore(e: Exception, ignore: Seq<Handle>) -> bool {
    exists|i: int| 0 <= i < ignore.len() && e.instance_of@.contains(ignore[i])
}

/// For an exception of exactly one class, matching the ignore set is the
/// same as the ignore set containing that class.
pub proof fn lemma_single_class_ignore(e: Exception, c: Handle, ignore: Seq<Handle>)
    requires
        e.instance_of@ == seq![c],
    ensures
        matches_ignore(e, ignore) <==> ignore.contains(c),
{
    assert(e.instance_of@[0] == c);
    if matches_ignore(e, ignore) {
        let i = choose|i: int| 0 <= i < ignore.len() && e.instance_of@.contains(ignore[i]);
        let j = choose|j: int|
            0 <= j < e.instance_of@.len() && e.instance_of@[j] == ignore[i];
        assert(ignore[i] == c);
        assert(ignore.contains(c));
    }
    if ignore.contains(c) {
        let i = choose|i: int| 0 <= i < ignore.len() && ignore[i] == c;
        assert(e.instance_of@.contains(ignore[i])) by {
            assert(e.instance_of@[0] == ignore[i]);
        }
        assert(matches_ignore(e, ignore));
    }
}

/// What a probed member invocation leaves behind: the host configuration is
/// untouched, exactly one call is logged, the pending-fault slot ends in the
/// state the classification demands, and the result is the found / absent /
/// failed trichotomy over what the host does for this key.
pub open spec fn member_probe_post(
    h0: Host,
    h1: Host,
    kind: MemberKind,
    target: Handle,
    name: Seq<char>,
    sig: Seq<char>,
    args: Seq<Value>,
    ignore: Seq<Handle>,
    r: Result<Option<Value>, HostError>,
) -> bool {
    &&& same_config(h1, h0)
    &&& logged_one(h0, h1)
    &&& is_member_call(h1.log@.last(), kind, target, name, sig, args)
    &&& fault_disciplined(r, h1)
    &&& match member_outcome(h0, kind, target, name, sig) {
        MemberOutcome::Returns(v) => r == Ok::<Option<Value>, HostError>(Some(v))
            && h1.pending is None,
        MemberOutcome::Throws(e) => if matches_ignore(e, ignore) {
            r == Ok::<Option<Value>, HostError>(None) && h1.pending is None
        } else {
            r == Err::<Option<Value>, HostError>(HostError::ExceptionPending) && pending_is(
                h1,
                e,
            )
        },
        MemberOutcome::Missing(c) => if ignore.contains(c) {
            r == Ok::<Option<Value>, HostError>(None) && h1.pending is None
        } else {
            r == Err::<Option<Value>, HostError>(HostError::ExceptionPending)
                && h1.pending is Some
        },
        MemberOutcome::Breaks => r == Err::<Option<Value>, HostError>(HostError::Malformed)
            && h1.pending is None,
    }
}

impl CompatEnv {
    /// The fixed ignore set for class lookups.
    pub open spec fn class_ignore(self) -> Seq<Handle> {
        seq![self.class_not_found_exception, self.no_class_def_found_error]
    }

    /// The fixed ignore set for field reads.
    pub open spec fn field_ignore(self) -> Seq<Handle> {
        seq![self.no_such_field_exception, self.no_such_field_error]
    }

    /// The fixed ignore set for method, static-method and constructor calls.
    pub open spec fn method_ignore(self) -> Seq<Handle> {
        seq![self.no_such_method_exception, self.no_such_method_error]
    }

    /// The six signal-type handles are the well-known ones, so a missing
    /// symbol synthesized by the host is classified as absent by the ignore
    /// set of its call kind.
    pub open spec fn canonical(self) -> bool {
        &&& self.class_not_found_exception == CLASS_NOT_FOUND_EXCEPTION
        &&& self.no_class_def_found_error == NO_CLASS_DEF_FOUND_ERROR
        &&& self.no_such_field_exception == NO_SUCH_FIELD_EXCEPTION
        &&& self.no_such_field_error == NO_SUCH_FIELD_ERROR
        &&& self.no_such_method_exception == NO_SUCH_METHOD_EXCEPTION
        &&& self.no_such_method_error == NO_SUCH_METHOD_ERROR
    }

    /// Prepare an execution context: resolve the six signal-type classes.
    /// These are foundational runtime types; a host on which any of them
    /// fails to resolve cannot classify faults, so context creation aborts
    /// with the error of the failed lookup.
    pub fn new(host: &mut Host) -> (r: Result<CompatEnv, HostError>)
        requires
            old(host).pending is None,
        ensures
            same_config(*final(host), *old(host)),
            queries_only(*old(host), *final(host)),
            fault_disciplined(r, *final(host)),
            (r is Ok) <==> {
                &&& class_lookup(old(host).classes@, "java/lang/ClassNotFoundException"@) is Some
                &&& class_lookup(old(host).classes@, "java/lang/NoSuchFieldException"@) is Some
                &&& class_lookup(old(host).classes@, "java/lang/NoSuchMethodException"@) is Some
                &&& class_lookup(old(host).classes@, "java/lang/NoClassDefFoundError"@) is Some
                &&& class_lookup(old(host).classes@, "java/lang/NoSuchFieldError"@) is Some
                &&& class_lookup(old(host).classes@, "java/lang/NoSuchMethodError"@) is Some
            },
            match r {
                Ok(env) => {
                    &&& env.context == old(host).context
                    &&& Some(env.class_not_found_exception) == class_lookup(
                        old(host).classes@,
                        "java/lang/ClassNotFoundException"@,
                    )
                    &&& Some(env.no_such_field_exception) == class_lookup(
                        old(host).classes@,
                        "java/lang/NoSuchFieldException"@,
                    )
                    &&& Some(env.no_such_method_exception) == class_lookup(
                        old(host).classes@,
                        "java/lang/NoSuchMethodException"@,
                    )
                    &&& Some(env.no_class_def_found_error) == class_lookup(
                        old(host).classes@,
                        "java/lang/NoClassDefFoundError"@,
                    )
                    &&& Some(env.no_such_field_error) == class_lookup(
                        old(host).classes@,
                        "java/lang/NoSuchFieldError"@,
                    )
                    &&& Some(env.no_such_method_error) == class_lookup(
                        old(host).classes@,
                        "java/lang/NoSuchMethodError"@,
                    )
                },
                Err(e) => e == HostError::ExceptionPending,
            },
            old(host).wf() && r is Ok ==> (match r {
                Ok(env) => env.canonical(),
                Err(_) => false,
            }),
    {
        proof {
            broadcast use lemma_logged_one_extends;

        }
        let class = Self::find_class_step(host, "java/lang/ClassNotFoundException")?;
        let field = Self::find_class_step(host, "java/lang/NoSuchFieldException")?;
        let method = Self::find_class_step(host, "java/lang/NoSuchMethodException")?;
        let class_err = Self::find_class_step(host, "java/lang/NoClassDefFoundError")?;
        let field_err = Self::find_class_step(host, "java/lang/NoSuchFieldError")?;
        let method_err = Self::find_class_step(host, "java/lang/NoSuchMethodError")?;
        Ok(CompatEnv {
            context: host.context,
            class_not_found_exception: class,
            no_such_field_exception: field,
            no_such_method_exception: method,
            no_class_def_found_error: class_err,
            no_such_field_error: field_err,
            no_such_method_error: method_err,
        })
    }

    /// One plain (unprobed) class resolution during context creation.
    fn find_class_step(host: &mut Host, name: &str) -> (r: Result<Handle, HostError>)
        requires
            old(host).pending is None,
        ensures
            same_config(*final(host), *old(host)),
            queries_only(*old(host), *final(host)),
            fault_disciplined(r, *final(host)),
            match class_lookup(old(host).classes@, name@) {
                Some(h) => r == Ok::<Handle, HostError>(h) && final(host).pending is None,
                None => r == Err::<Handle, HostError>(HostError::ExceptionPending),
            },
    {
        proof {
            broadcast use lemma_logged_one_extends;

        }
        host.find_class(name)
    }

    /// Classify the outcome of one fallible cross-boundary call.
    ///
    /// On the host's "an exception is pending" error the probe fetches the
    /// pending exception, clears the fault slot unconditionally, and tests
    /// the exception against each entry of the ignore set with an
    /// instance-of test.  A match is confirmed absence.  Anything else is
    /// re-raised unchanged, so the caller observes the original fault.  Any
    /// other error kind passes through without touching the fault slot.
    fn try_do<T>(&self, host: &mut Host, val: Result<T, HostError>, ignore: &Vec<Handle>) -> (r:
        Result<Option<T>, HostError>)
        requires
            match val {
                Err(HostError::ExceptionPending) => old(host).pending is Some,
                _ => old(host).pending is None,
            },
        ensures
            same_config(*final(host), *old(host)),
            final(host).log@ == old(host).log@,
            final(host).fresh == old(host).fresh,
            fault_disciplined(r, *final(host)),
            match val {
                Ok(x) => r == Ok::<Option<T>, HostError>(Some(x)) && final(host).pending
                    == old(host).pending,
                Err(HostError::ExceptionPending) => match old(host).pending {
                    Some(e) => if matches_ignore(e, ignore@) {
                        r == Ok::<Option<T>, HostError>(None) && final(host).pending is None
                    } else {
                        r == Err::<Option<T>, HostError>(HostError::ExceptionPending)
                            && pending_is(*final(host), e)
                    },
                    None => false,
                },
                Err(e) => r == Err::<Option<T>, HostError>(e) && final(host).pending == old(host).pending,
            },
    {
        match val {
            Ok(x) => Ok(Some(x)),
            Err(HostError::ExceptionPending) => {
                let exception = host.exception_occurred().unwrap();
                host.exception_clear();
                let mut i: usize = 0;
                while i < ignore.len()
                    invariant
                        val == Err::<T, HostError>(HostError::ExceptionPending),
                        i <= ignore@.len(),
                        forall|k: int|
                            0 <= k < i ==> !exception.instance_of@.contains(ignore@[k]),
                        match old(host).pending {
                            Some(e) => exc_eq(exception, e),
                            None => false,
                        },
                        host.pending is None,
                        same_config(*host, *old(host)),
                        host.log@ == old(host).log@,
                        host.fresh == old(host).fresh,
                    decreases ignore@.len() - i,
                {
                    if host.is_instance_of(&exception, ignore[i]) {
                        return Ok(None);
                    }
                    i = i + 1;
                }
                host.throw(exception);
                Err(HostError::ExceptionPending)
            },
            Err(e) => Err(e),
        }
    }

    /// Probe for a class: absent when the raised exception is one of the two
    /// class-not-found signal types.
    pub fn try_find_class(&self, host: &mut Host, name: &str) -> (r: Result<
        Option<Handle>,
        HostError,
    >)
        requires
            old(host).pending is None,
        ensures
            same_config(*final(host), *old(host)),
            logged_one(*old(host), *final(host)),
            is_find_class(final(host).log@.last(), name@),
            fault_disciplined(r, *final(host)),
            match class_lookup(old(host).classes@, name@) {
                Some(h) => r == Ok::<Option<Handle>, HostError>(Some(h)) && final(host).pending is None,
                None => if self.class_ignore().contains(NO_CLASS_DEF_FOUND_ERROR) {
                    r == Ok::<Option<Handle>, HostError>(None) && final(host).pending is None
                } else {
                    r == Err::<Option<Handle>, HostError>(HostError::ExceptionPending)
                        && final(host).pending is Some
                },
            },
    {
        let val = host.find_class(name);
        proof {
            let pend = host.pending;
            if let Some(p) = pend {
                lemma_single_class_ignore(p, NO_CLASS_DEF_FOUND_ERROR, self.class_ignore());
            }
        }
        let ignore = two_handles(self.class_not_found_exception, self.no_class_def_found_error);
        self.try_do(host, val, &ignore)
    }

    /// Probe a member invocation with the given ignore set.
    fn try_member(
        &self,
        host: &mut Host,
        kind: MemberKind,
        target: Handle,
        name: &str,
        sig: &str,
        args: Vec<Value>,
        ignore: &Vec<Handle>,
    ) -> (r: Result<Option<Value>, HostError>)
        requires
            old(host).pending is None,
        ensures
            member_probe_post(
                *old(host),
                *final(host),
                kind,
                target,
                name@,
                sig@,
                args@,
                ignore@,
                r,
            ),
    {
        let val = host.invoke(kind, target, name, sig, args);
        proof {
            if let MemberOutcome::Missing(c) = member_outcome(
                *old(host),
                kind,
                target,
                name@,
                sig@,
            ) {
                let pend = host.pending;
                if let Some(p) = pend {
                    lemma_single_class_ignore(p, c, ignore@);
                }
            }
        }
        self.try_do(host, val, ignore)
    }

    /// Probe an instance field read: absent when the raised exception is one
    /// of the two field-not-found signal types.
    pub fn try_get_field(&self, host: &mut Host, obj: Handle, name: &str, ty: &str) -> (r:
        Result<Option<Value>, HostError>)
        requires
            old(host).pending is None,
        ensures
            member_probe_post(
                *old(host),
                *final(host),
                MemberKind::InstanceField,
                obj,
                name@,
                ty@,
                Seq::<Value>::empty(),
                self.field_ignore(),
                r,
            ),
    {
        let ignore = two_handles(self.no_such_field_exception, self.no_such_field_error);
        self.try_member(host, MemberKind::InstanceField, obj, name, ty, Vec::new(), &ignore)
    }

    /// Probe a static field read: absent when the raised exception is one of
    /// the two field-not-found signal types.
    pub fn try_get_static_field(&self, host: &mut Host, class: Handle, field: &str, sig: &str)
        -> (r: Result<Option<Value>, HostError>)
        requires
            old(host).pending is None,
        ensures
            member_probe_post(
                *old(host),
                *final(host),
                MemberKind::StaticField,
                class,
                field@,
                sig@,
                Seq::<Value>::empty(),
                self.field_ignore(),
                r,
            ),
    {
        let ignore = two_handles(self.no_such_field_exception, self.no_such_field_error);
        self.try_member(host, MemberKind::StaticField, class, field, sig, Vec::new(), &ignore)
    }

    /// Probe a method invocation: absent when the raised exception is one of
    /// the two method-not-found signal types.
    pub fn try_call_method(
        &self,
        host: &mut Host,
        obj: Handle,
        name: &str,
        sig: &str,
        args: Vec<Value>,
    ) -> (r: Result<Option<Value>, HostError>)
        requires
            old(host).pending is None,
        ensures
            member_probe_post(
                *old(host),
                *final(host),
                MemberKind::Method,
                obj,
                name@,
                sig@,
                args@,
                self.method_ignore(),
                r,
            ),
    {
        let ignore = two_handles(self.no_such_method_exception, self.no_such_method_error);
        self.try_member(host, MemberKind::Method, obj, name, sig, args, &ignore)
    }

    /// Probe a static method invocation: absent when the raised exception is
    /// one of the two method-not-found signal types.
    pub fn try_call_static_method(
        &self,
        host: &mut Host,
        class: Handle,
        name: &str,
        sig: &str,
        args: Vec<Value>,
    ) -> (r: Result<Option<Value>, HostError>)
        requires
            old(host).pending is None,
        ensures
            member_probe_post(
                *old(host),
                *final(host),
                MemberKind::StaticMethod,
                class,
                name@,
                sig@,
                args@,
                self.method_ignore(),
                r,
            ),
    {
        let ignore = two_handles(self.no_such_method_exception, self.no_such_method_error);
        self.try_member(host, MemberKind::StaticMethod, class, name, sig, args, &ignore)
    }

    /// Probe an object construction: absent when the raised exception is one
    /// of the two method-not-found signal types.  A constructor reply that
    /// is not an object is a malformed-call failure, never absence.
    pub fn try_new_object(&self, host: &mut Host, class: Handle, ctor_sig: &str, ctor_args: Vec<
        Value,
    >) -> (r: Result<Option<Handle>, HostError>)
        requires
            old(host).pending is None,
        ensures
            same_config(*final(host), *old(host)),
            logged_one(*old(host), *final(host)),
            is_member_call(
                final(host).log@.last(),
                MemberKind::Ctor,
                class,
                "<init>"@,
                ctor_sig@,
                ctor_args@,
            ),
            fault_disciplined(r, *final(host)),
            match member_outcome(*old(host), MemberKind::Ctor, class, "<init>"@, ctor_sig@) {
                MemberOutcome::Returns(v) => match v {
                    Value::Object(h) => r == Ok::<Option<Handle>, HostError>(Some(h)) && final(host).pending is None,
                    _ => r == Err::<Option<Handle>, HostError>(HostError::WrongType) && final(host).pending is None,
                },
                MemberOutcome::Throws(e) => if matches_ignore(e, self.method_ignore()) {
                    r == Ok::<Option<Handle>, HostError>(None) && final(host).pending is None
                } else {
                    r == Err::<Option<Handle>, HostError>(HostError::ExceptionPending)
                        && pending_is(*final(host), e)
                },
                MemberOutcome::Missing(c) => if self.method_ignore().contains(c) {
                    r == Ok::<Option<Handle>, HostError>(None) && final(host).pending is None
                } else {
                    r == Err::<Option<Handle>, HostError>(HostError::ExceptionPending)
                        && final(host).pending is Some
                },
                MemberOutcome::Breaks => r == Err::<Option<Handle>, HostError>(
                    HostError::Malformed,
                ) && final(host).pending is None,
            },
    {
        let ignore = two_handles(self.no_such_method_exception, self.no_such_method_error);
        let probed = self.try_member(
            host,
            MemberKind::Ctor,
            class,
            "<init>",
            ctor_sig,
            ctor_args,
            &ignore,
        );
        match probed {
            Ok(Some(v)) => match v.as_object() {
                Ok(h) => Ok(Some(h)),
                Err(e) => Err(e),
            },
            Ok(None) => Ok(None),
            Err(e) => Err(e),
        }
    }

    /// Probe a static integer field and narrow it to its value: present,
    /// confirmed absent, or failed.
    pub fn probe_static_int_field(&self, host: &mut Host, class: Handle, name: &str) -> (r:
        Result<Option<i32>, HostError>)
        requires
            old(host).pending is None,
        ensures
            same_config(*final(host), *old(host)),
            logged_one(*old(host), *final(host)),
            queries_only(*old(host), *final(host)),
            is_member_call(
                final(host).log@.last(),
                MemberKind::StaticField,
                class,
                name@,
                "I"@,
                Seq::<Value>::empty(),
            ),
            fault_disciplined(r, *final(host)),
            match probe_static_int(*old(host), *self, class, name@) {
                FlagView::Present(k) => r == Ok::<Option<i32>, HostError>(Some(k))
                    && final(host).pending is None,
                FlagView::Missing => r == Ok::<Option<i32>, HostError>(None)
                    && final(host).pending is None,
                FlagView::Faulty => match r {
                    Err(e) => static_int_fault_state(
                        *old(host),
                        *final(host),
                        *self,
                        class,
                        name@,
                        e,
                    ),
                    Ok(_) => false,
                },
            },
    {
        proof {
            broadcast use lemma_logged_one_extends;

        }
        let probed = self.try_get_static_field(host, class, name, "I")?;
        proof {
            assert(host.log@[old(host).log@.len() as int] == host.log@.last());
        }
        match probed {
            Some(v) => match v.as_int() {
                Ok(k) => Ok(Some(k)),
                Err(e) => Err(e),
            },
            None => Ok(None),
        }
    }
}

/// The classification of a probed static integer field: its value when the
/// symbol exists, confirmed absence, or a real failure.
pub enum FlagView {
    Present(i32),
    Missing,
    Faulty,
}

/// What probing a static integer field of `class` yields on host `h`, for
/// an execution context with the given ignore sets.
pub open spec fn probe_static_int(h: Host, env: CompatEnv, class: Handle, name: Seq<char>)
    -> FlagView {
    match member_outcome(h, MemberKind::StaticField, class, name, "I"@) {
        MemberOutcome::Returns(Value::Int(k)) => FlagView::Present(k),
        MemberOutcome::Returns(_) => FlagView::Faulty,
        MemberOutcome::Throws(e) => if matches_ignore(e, env.field_ignore()) {
            FlagView::Missing
        } else {
            FlagView::Faulty
        },
        MemberOutcome::Missing(c) => if env.field_ignore().contains(c) {
            FlagView::Missing
        } else {
            FlagView::Faulty
        },
        MemberOutcome::Breaks => FlagView::Faulty,
    }
}

/// The exact error, and the exact pending-fault state, a failed static
/// integer probe leaves behind: a value of the wrong shape is a wrong-type
/// failure with a clear slot, a non-ignored exception is re-raised — the
/// same object, by identity — into the slot, and a transport fault passes
/// through with the slot untouched.
pub open spec fn static_int_fault_state(
    h0: Host,
    h1: Host,
    env: CompatEnv,
    class: Handle,
    name: Seq<char>,
    e: HostError,
) -> bool {
    match member_outcome(h0, MemberKind::StaticField, class, name, "I"@) {
        MemberOutcome::Returns(_) => e == HostError::WrongType && h1.pending is None,
        MemberOutcome::Throws(exc) => e == HostError::ExceptionPending && pending_is(h1, exc),
        MemberOutcome::Missing(_) => e == HostError::ExceptionPending && h1.pending is Some,
        MemberOutcome::Breaks => e == HostError::Malformed && h1.pending is None,
    }
}

/// A two-entry ignore set.
fn two_handles(a: Handle, b: Handle) -> (v: Vec<Handle>)
    ensures
        v@ == seq![a, b],
{
    let mut v: Vec<Handle> = Vec::new();
    v.push(a);
    v.push(b);
    proof {
        assert(v@ =~= seq![a, b]);
    }
    v
}

} // verus!
