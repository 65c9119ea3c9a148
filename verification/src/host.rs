//! A data model of the host runtime's reflective call surface.
//!
//! The host runtime is an externally-owned managed environment.  This module
//! describes, as plain data, exactly what the compatibility layer can observe
//! of it: which classes resolve, how each field, method and constructor
//! replies when invoked, the single pending-fault slot of the execution
//! context, and the sequence of cross-boundary calls issued so far.
//!
//! Every operation of the surface is an ordinary verified function whose
//! contract states what the call does to the pending-fault slot and to the
//! call log.  Issuing a call while a fault is pending is undefined behaviour
//! on a real host, so every lookup or invocation requires the slot to be
//! clear; the verifier holds all callers in this crate to that discipline.

use vstd::prelude::*;

verus! {

/// A handle to an object or class inside the host runtime.
pub type Handle = u64;

/// Class handle of the "class not found" signal type.
pub const CLASS_NOT_FOUND_EXCEPTION: Handle = 1;

/// Class handle of the more severe "class not found" signal type.
pub const NO_CLASS_DEF_FOUND_ERROR: Handle = 2;

/// Class handle of the "field not found" signal type.
pub const NO_SUCH_FIELD_EXCEPTION: Handle = 3;

/// Class handle of the more severe "field not found" signal type.
pub const NO_SUCH_FIELD_ERROR: Handle = 4;

/// Class handle of the "method not found" signal type.
pub const NO_SUCH_METHOD_EXCEPTION: Handle = 5;

/// Class handle of the more severe "method not found" signal type.
pub const NO_SUCH_METHOD_ERROR: Handle = 6;

/// A value carried across the boundary: an argument to, or the result of,
/// a cross-boundary call.
#[derive(Debug, PartialEq, Eq)]
pub enum Value {
    Int(i32),
    Bool(bool),
    Str(String),
    Object(Handle),
    Void,
}

/// An exception object of the host: its object identity together with the
/// set of class handles it is an instance of (its own class and every
/// supertype the host would report).
#[derive(Debug)]
pub struct Exception {
    pub identity: u64,
    pub instance_of: Vec<Handle>,
}

/// How a symbol of the host replies when it is invoked.
#[derive(Debug)]
pub enum Reply {
    /// The invocation succeeds and returns this value.
    Value(Value),
    /// The invocation raises this exception into the pending-fault slot.
    Throw(Exception),
    /// The invocation fails without raising an exception (a malformed
    /// signature or a transport-level fault).
    Fail,
}

/// The kind of member symbol addressed by an invocation.
#[derive(Debug, Clone, Copy, PartialEq, Eq, Structural)]
pub enum MemberKind {
    InstanceField,
    StaticField,
    Method,
    StaticMethod,
    Ctor,
}

/// A class the host resolves by name.
#[derive(Debug)]
pub struct ClassDef {
    pub name: String,
    pub handle: Handle,
}

/// A member symbol of the host: addressed by kind, owning class or receiver
/// object, name and exact type signature.
#[derive(Debug)]
pub struct MemberDef {
    pub kind: MemberKind,
    pub target: Handle,
    pub name: String,
    pub sig: String,
    pub reply: Reply,
}

/// The class of one object, as the host reports it.
#[derive(Debug, Clone, Copy)]
pub struct ObjectClassDef {
    pub object: Handle,
    pub class: Handle,
}

/// One cross-boundary call, as recorded in the call log.
#[derive(Debug)]
pub enum Call {
    FindClass { name: String },
    Member { kind: MemberKind, target: Handle, name: String, sig: String, args: Vec<Value> },
}

/// An error returned by a cross-boundary call.
#[derive(Debug, PartialEq, Eq)]
pub enum HostError {
    /// An exception was raised; it sits in the pending-fault slot and must be
    /// cleared before any further call.
    ExceptionPending,
    /// A value did not have the expected shape.
    WrongType,
    /// A malformed call or a transport-level fault; no exception is pending.
    Malformed,
    /// A field that must exist on every host release could not be found.
    FieldNotFound { name: String, sig: String },
}

/// The execution context: one connection into the host runtime, with its
/// symbol tables, its single pending-fault slot, and the log of
/// cross-boundary calls issued through it.
#[derive(Debug)]
pub struct Host {
    pub classes: Vec<ClassDef>,
    pub members: Vec<MemberDef>,
    pub object_classes: Vec<ObjectClassDef>,
    /// Handle of the calling application's root object.
    pub context: Handle,
    /// The single pending-fault slot of this execution context.
    pub pending: Option<Exception>,
    /// Identity the next host-synthesized exception object will carry.
    pub fresh: u64,
    /// Every symbol lookup or invocation issued so far, in order.
    pub log: Vec<Call>,
}

/// The class handle a name resolves to: the most recently added entry wins.
pub open spec fn class_lookup(t: Seq<ClassDef>, name: Seq<char>) -> Option<Handle>
    decreases t.len(),
{
    if t.len() == 0 {
        None
    } else if t.last().name@ == name {
        Some(t.last().handle)
    } else {
        class_lookup(t.drop_last(), name)
    }
}

/// Whether a member entry answers to the given key.
pub open spec fn member_matches(
    m: MemberDef,
    kind: MemberKind,
    target: Handle,
    name: Seq<char>,
    sig: Seq<char>,
) -> bool {
    m.kind == kind && m.target == target && m.name@ == name && m.sig@ == sig
}

/// The reply of the member a key addresses: the most recently added entry wins.
pub open spec fn member_lookup(
    t: Seq<MemberDef>,
    kind: MemberKind,
    target: Handle,
    name: Seq<char>,
    sig: Seq<char>,
) -> Option<Reply>
    decreases t.len(),
{
    if t.len() == 0 {
        None
    } else if member_matches(t.last(), kind, target, name, sig) {
        Some(t.last().reply)
    } else {
        member_lookup(t.drop_last(), kind, target, name, sig)
    }
}

/// The class of an object, as recorded: the most recently added entry wins.
pub open spec fn object_class_lookup(t: Seq<ObjectClassDef>, object: Handle) -> Option<Handle>
    decreases t.len(),
{
    if t.len() == 0 {
        None
    } else if t.last().object == object {
        Some(t.last().class)
    } else {
        object_class_lookup(t.drop_last(), object)
    }
}

/// Looking a name up after adding a class entry finds the new entry when the
/// name matches and is otherwise unaffected.
pub broadcast proof fn lemma_class_lookup_push(s: Seq<ClassDef>, d: ClassDef, name: Seq<char>)
    ensures
        #[trigger] class_lookup(s.push(d), name) == (if d.name@ == name {
            Some(d.handle)
        } else {
            class_lookup(s, name)
        }),
{
    assert(s.push(d).last() == d);
    assert(s.push(d).drop_last() =~= s);
}

/// Two exceptions are the same object: same identity, same type set.
pub open spec fn exc_eq(a: Exception, b: Exception) -> bool {
    a.identity == b.identity && a.instance_of@ == b.instance_of@
}

/// The pending-fault slot of `h` holds exactly the exception `e`.
pub open spec fn pending_is(h: Host, e: Exception) -> bool {
    match h.pending {
        Some(p) => exc_eq(p, e),
        None => false,
    }
}

/// The two hosts expose the same symbols to the same effect; only the
/// pending-fault slot, the call log and the synthesized-identity counter may
/// differ.  Cross-boundary calls never change the configuration.
pub open spec fn same_config(a: Host, b: Host) -> bool {
    a.classes@ == b.classes@ && a.members@ == b.members@ && a.object_classes@ == b.object_classes@
        && a.context == b.context
}

/// What the host does when the member a key addresses is invoked.
pub enum MemberOutcome {
    /// The member exists and returns this value.
    Returns(Value),
    /// The member exists and raises this exception.
    Throws(Exception),
    /// No such member: the host raises a synthesized exception of this
    /// signal class.
    Missing(Handle),
    /// The member exists and fails without raising an exception.
    Breaks,
}

/// The signal class of the exception the host raises for a missing member of
/// the given kind.
pub open spec fn missing_signal_class(kind: MemberKind) -> Handle {
    match kind {
        MemberKind::InstanceField | MemberKind::StaticField => NO_SUCH_FIELD_ERROR,
        _ => NO_SUCH_METHOD_ERROR,
    }
}

/// What invoking the member addressed by the given key does on host `h`.
pub open spec fn member_outcome(
    h: Host,
    kind: MemberKind,
    target: Handle,
    name: Seq<char>,
    sig: Seq<char>,
) -> MemberOutcome {
    match member_lookup(h.members@, kind, target, name, sig) {
        Some(Reply::Value(v)) => MemberOutcome::Returns(v),
        Some(Reply::Throw(e)) => MemberOutcome::Throws(e),
        Some(Reply::Fail) => MemberOutcome::Breaks,
        None => MemberOutcome::Missing(missing_signal_class(kind)),
    }
}

/// The result a plain (unprobed) invocation of this key returns: the value
/// on success, a pending-exception error for a raised or synthesized
/// exception, a malformed-call error otherwise.
pub open spec fn plain_call_result(
    h: Host,
    kind: MemberKind,
    target: Handle,
    name: Seq<char>,
    sig: Seq<char>,
) -> Result<Value, HostError> {
    match member_outcome(h, kind, target, name, sig) {
        MemberOutcome::Returns(v) => Ok(v),
        MemberOutcome::Throws(_) => Err(HostError::ExceptionPending),
        MemberOutcome::Missing(_) => Err(HostError::ExceptionPending),
        MemberOutcome::Breaks => Err(HostError::Malformed),
    }
}

/// Narrow a call result to its integer, as the callers that need an integer
/// do: a value of another shape is a wrong-type failure.
pub open spec fn as_int_result(rv: Result<Value, HostError>) -> Result<i32, HostError> {
    match rv {
        Ok(Value::Int(k)) => Ok(k),
        Ok(_) => Err(HostError::WrongType),
        Err(e) => Err(e),
    }
}

/// Narrow a call result to its object handle.
pub open spec fn as_object_result(rv: Result<Value, HostError>) -> Result<Handle, HostError> {
    match rv {
        Ok(Value::Object(h)) => Ok(h),
        Ok(_) => Err(HostError::WrongType),
        Err(e) => Err(e),
    }
}

/// Keep only whether a call succeeded, as the callers that discard the
/// returned value do.
pub open spec fn unit_result(rv: Result<Value, HostError>) -> Result<(), HostError> {
    match rv {
        Ok(_) => Ok(()),
        Err(e) => Err(e),
    }
}

/// The log of `h1` extends the log of `h0` by exactly one entry.
pub open spec fn logged_one(h0: Host, h1: Host) -> bool {
    h1.log@.len() == h0.log@.len() + 1 && h1.log@.drop_last() == h0.log@
}

/// The call record is a class lookup for this name.
pub open spec fn is_find_class(c: Call, name: Seq<char>) -> bool {
    match c {
        Call::FindClass { name: n } => n@ == name,
        _ => false,
    }
}

/// The call record is a member invocation with exactly this key and these
/// arguments.
pub open spec fn is_member_call(
    c: Call,
    kind: MemberKind,
    target: Handle,
    name: Seq<char>,
    sig: Seq<char>,
    args: Seq<Value>,
) -> bool {
    match c {
        Call::Member { kind: k, target: t, name: n, sig: s, args: a } => {
            k == kind && t == target && n@ == name && s@ == sig && a@ == args
        },
        _ => false,
    }
}

/// The call record is a method run carrying a single piece of text.
pub open spec fn is_single_text_call(
    c: Call,
    target: Handle,
    name: Seq<char>,
    text: Seq<char>,
) -> bool {
    match c {
        Call::Member { kind, target: t, name: n, sig, args } => {
            &&& kind == MemberKind::Method
            &&& t == target
            &&& n@ == name
            &&& args@.len() == 1
            &&& match args@[0] {
                Value::Str(s) => s@ == text,
                _ => false,
            }
        },
        _ => false,
    }
}

/// The call record only queries the host (a class lookup or a field read);
/// it cannot construct an object or run a method.
pub open spec fn is_query(c: Call) -> bool {
    match c {
        Call::FindClass { .. } => true,
        Call::Member { kind, .. } => {
            kind == MemberKind::InstanceField || kind == MemberKind::StaticField
        },
    }
}

/// The log of `h1` starts with the log of `h0`: calls are only ever
/// appended.
pub open spec fn log_extends(h0: Host, h1: Host) -> bool {
    h1.log@.len() >= h0.log@.len() && forall|i: int|
        0 <= i < h0.log@.len() ==> h1.log@[i] == h0.log@[i]
}

/// Between `h0` and `h1` the host was only queried: every appended call
/// record is a class lookup or a field read, never a construction or a
/// method run.
pub open spec fn queries_only(h0: Host, h1: Host) -> bool {
    log_extends(h0, h1) && forall|i: int|
        h0.log@.len() <= i < h1.log@.len() ==> is_query(#[trigger] h1.log@[i])
}

/// A single appended record extends the log.
pub broadcast proof fn lemma_logged_one_extends(h0: Host, h1: Host)
    requires
        #[trigger] logged_one(h0, h1),
    ensures
        log_extends(h0, h1),
{
    assert forall|i: int| 0 <= i < h0.log@.len() implies h1.log@[i] == h0.log@[i] by {
        assert(h1.log@.drop_last()[i] == h0.log@[i]);
    }
}

/// The pending-fault slot is occupied exactly when the result reports a
/// pending exception: no fault ever outlives its classification.
pub open spec fn fault_disciplined<T>(r: Result<T, HostError>, h: Host) -> bool {
    (h.pending is Some) <==> (r == Err::<T, HostError>(HostError::ExceptionPending))
}

impl Value {
    /// An exact copy of this value.
    pub fn dup(&self) -> (r: Value)
        ensures
            r == *self,
    {
        match self {
            Value::Int(i) => Value::Int(*i),
            Value::Bool(b) => Value::Bool(*b),
            Value::Str(s) => Value::Str(s.clone()),
            Value::Object(h) => Value::Object(*h),
            Value::Void => Value::Void,
        }
    }

    /// The integer this value carries, if it is an integer.
    pub fn as_int(&self) -> (r: Result<i32, HostError>)
        ensures
            match *self {
                Value::Int(i) => r == Ok::<i32, HostError>(i),
                _ => r == Err::<i32, HostError>(HostError::WrongType),
            },
    {
        match self {
            Value::Int(i) => Ok(*i),
            _ => Err(HostError::WrongType),
        }
    }

    /// The object handle this value carries, if it is an object.
    pub fn as_object(&self) -> (r: Result<Handle, HostError>)
        ensures
            match *self {
                Value::Object(h) => r == Ok::<Handle, HostError>(h),
                _ => r == Err::<Handle, HostError>(HostError::WrongType),
            },
    {
        match self {
            Value::Object(h) => Ok(*h),
            _ => Err(HostError::WrongType),
        }
    }
}

impl Host {
    /// A fresh execution context for a host whose six foundational signal
    /// classes resolve, and which exposes nothing else yet.
    pub fn new(context: Handle) -> (h: Host)
        ensures
            h.wf(),
            h.members@ == Seq::<MemberDef>::empty(),
            h.object_classes@ == Seq::<ObjectClassDef>::empty(),
            h.log@ == Seq::<Call>::empty(),
            h.pending is None,
            h.context == context,
    {
        let mut classes: Vec<ClassDef> = Vec::new();
        classes.push(ClassDef {
            name: "java/lang/ClassNotFoundException".to_owned(),
            handle: CLASS_NOT_FOUND_EXCEPTION,
        });
        classes.push(ClassDef {
            name: "java/lang/NoClassDefFoundError".to_owned(),
            handle: NO_CLASS_DEF_FOUND_ERROR,
        });
        classes.push(ClassDef {
            name: "java/lang/NoSuchFieldException".to_owned(),
            handle: NO_SUCH_FIELD_EXCEPTION,
        });
        classes.push(ClassDef {
            name: "java/lang/NoSuchFieldError".to_owned(),
            handle: NO_SUCH_FIELD_ERROR,
        });
        classes.push(ClassDef {
            name: "java/lang/NoSuchMethodException".to_owned(),
            handle: NO_SUCH_METHOD_EXCEPTION,
        });
        classes.push(ClassDef {
            name: "java/lang/NoSuchMethodError".to_owned(),
            handle: NO_SUCH_METHOD_ERROR,
        });
        let h = Host {
            classes,
            members: Vec::new(),
            object_classes: Vec::new(),
            context,
            pending: None,
            fresh: 1,
            log: Vec::new(),
        };
        proof {
            reveal_strlit("java/lang/ClassNotFoundException");
            reveal_strlit("java/lang/NoClassDefFoundError");
            reveal_strlit("java/lang/NoSuchFieldException");
            reveal_strlit("java/lang/NoSuchFieldError");
            reveal_strlit("java/lang/NoSuchMethodException");
            reveal_strlit("java/lang/NoSuchMethodError");
            broadcast use lemma_class_lookup_push;

            assert("java/lang/ClassNotFoundException"@.len() == 32);
            assert("java/lang/NoClassDefFoundError"@.len() == 30);
            assert("java/lang/NoSuchFieldException"@.len() == 30);
            assert("java/lang/NoSuchFieldError"@.len() == 26);
            assert("java/lang/NoSuchMethodException"@.len() == 31);
            assert("java/lang/NoSuchMethodError"@.len() == 27);
            assert("java/lang/NoClassDefFoundError"@[12]
                != "java/lang/NoSuchFieldException"@[12]);
        }
        h
    }

    /// The six foundational signal classes resolve to their well-known
    /// handles on this host.
    pub open spec fn wf(self) -> bool {
        &&& class_lookup(self.classes@, "java/lang/ClassNotFoundException"@)
            == Some(CLASS_NOT_FOUND_EXCEPTION)
        &&& class_lookup(self.classes@, "java/lang/NoClassDefFoundError"@)
            == Some(NO_CLASS_DEF_FOUND_ERROR)
        &&& class_lookup(self.classes@, "java/lang/NoSuchFieldException"@)
            == Some(NO_SUCH_FIELD_EXCEPTION)
        &&& class_lookup(self.classes@, "java/lang/NoSuchFieldError"@)
            == Some(NO_SUCH_FIELD_ERROR)
        &&& class_lookup(self.classes@, "java/lang/NoSuchMethodException"@)
            == Some(NO_SUCH_METHOD_EXCEPTION)
        &&& class_lookup(self.classes@, "java/lang/NoSuchMethodError"@)
            == Some(NO_SUCH_METHOD_ERROR)
    }

    /// Expose one more class on this host.
    pub fn add_class(&mut self, name: &str, handle: Handle)
        ensures
            final(self).classes@.len() == old(self).classes@.len() + 1,
            final(self).classes@.drop_last() == old(self).classes@,
            class_lookup(final(self).classes@, name@) == Some(handle),
            forall|n: Seq<char>|
                n != name@ ==> #[trigger] class_lookup(final(self).classes@, n)
                    == class_lookup(old(self).classes@, n),
            final(self).members@ == old(self).members@,
            final(self).object_classes@ == old(self).object_classes@,
            final(self).context == old(self).context,
            final(self).pending == old(self).pending,
            final(self).log@ == old(self).log@,
    {
        self.classes.push(ClassDef { name: name.to_owned(), handle });
        proof {
            assert(self.classes@.drop_last() =~= old(self).classes@);
        }
    }

    /// Expose one more member symbol on this host, overriding any earlier
    /// entry with the same key.
    pub fn add_member(&mut self, kind: MemberKind, target: Handle, name: &str, sig: &str, reply: Reply)
        ensures
            final(self).members@.len() == old(self).members@.len() + 1,
            final(self).members@.drop_last() == old(self).members@,
            member_lookup(final(self).members@, kind, target, name@, sig@) == Some(reply),
            forall|k: MemberKind, t: Handle, n: Seq<char>, s: Seq<char>|
                !(k == kind && t == target && n == name@ && s == sig@)
                    ==> #[trigger] member_lookup(final(self).members@, k, t, n, s)
                        == member_lookup(old(self).members@, k, t, n, s),
            final(self).classes@ == old(self).classes@,
            final(self).object_classes@ == old(self).object_classes@,
            final(self).context == old(self).context,
            final(self).pending == old(self).pending,
            final(self).log@ == old(self).log@,
    {
        self.members.push(MemberDef {
            kind,
            target,
            name: name.to_owned(),
            sig: sig.to_owned(),
            reply,
        });
        proof {
            assert(self.members@.drop_last() =~= old(self).members@);
        }
    }

    /// Record the class of one object, as the host would report it.
    pub fn set_object_class(&mut self, object: Handle, class: Handle)
        ensures
            object_class_lookup(final(self).object_classes@, object) == Some(class),
            forall|o: Handle|
                o != object ==> #[trigger] object_class_lookup(final(self).object_classes@, o)
                    == object_class_lookup(old(self).object_classes@, o),
            final(self).classes@ == old(self).classes@,
            final(self).members@ == old(self).members@,
            final(self).context == old(self).context,
            final(self).pending == old(self).pending,
            final(self).log@ == old(self).log@,
    {
        self.object_classes.push(ObjectClassDef { object, class });
        proof {
            assert(self.object_classes@.drop_last() =~= old(self).object_classes@);
        }
    }

    /// Whether a fault is pending on this execution context.
    pub fn has_pending_fault(&self) -> (r: bool)
        ensures
            r == (self.pending is Some),
    {
        self.pending.is_some()
    }

    /// The index of the class entry a name resolves to.
    fn class_index(&self, name: &str) -> (r: Option<usize>)
        ensures
            match r {
                Some(i) => i < self.classes@.len() && self.classes@[i as int].name@ == name@
                    && class_lookup(self.classes@, name@)
                        == Some(self.classes@[i as int].handle),
                None => class_lookup(self.classes@, name@) is None,
            },
    {
        let name_o: String = name.to_owned();
        let mut i: usize = self.classes.len();
        proof {
            assert(self.classes@.take(self.classes@.len() as int) =~= self.classes@);
        }
        while i > 0
            invariant
                i <= self.classes@.len(),
                name_o@ == name@,
                class_lookup(self.classes@, name@)
                    == class_lookup(self.classes@.take(i as int), name@),
            decreases i,
        {
            i = i - 1;
            proof {
                assert(self.classes@.take(i as int + 1).last() == self.classes@[i as int]);
                assert(self.classes@.take(i as int + 1).drop_last()
                    =~= self.classes@.take(i as int));
            }
            if self.classes[i].name == name_o {
                return Some(i);
            }
        }
        proof {
            assert(self.classes@.take(0).len() == 0);
        }
        None
    }

    /// The index of the member entry a key resolves to.
    fn member_index(&self, kind: MemberKind, target: Handle, name: &str, sig: &str) -> (r:
        Option<usize>)
        ensures
            match r {
                Some(i) => i < self.members@.len()
                    && member_matches(self.members@[i as int], kind, target, name@, sig@)
                    && member_lookup(self.members@, kind, target, name@, sig@)
                        == Some(self.members@[i as int].reply),
                None => member_lookup(self.members@, kind, target, name@, sig@) is None,
            },
    {
        let name_o: String = name.to_owned();
        let sig_o: String = sig.to_owned();
        let mut i: usize = self.members.len();
        proof {
            assert(self.members@.take(self.members@.len() as int) =~= self.members@);
        }
        while i > 0
            invariant
                i <= self.members@.len(),
                name_o@ == name@,
                sig_o@ == sig@,
                member_lookup(self.members@, kind, target, name@, sig@)
                    == member_lookup(self.members@.take(i as int), kind, target, name@, sig@),
            decreases i,
        {
            i = i - 1;
            proof {
                assert(self.members@.take(i as int + 1).last() == self.members@[i as int]);
                assert(self.members@.take(i as int + 1).drop_last()
                    =~= self.members@.take(i as int));
            }
            let m = &self.members[i];
            if m.kind == kind && m.target == target && m.name == name_o && m.sig == sig_o {
                return Some(i);
            }
        }
        proof {
            assert(self.members@.take(0).len() == 0);
        }
        None
    }

    /// Resolve a class by its fully qualified name.  A name the host does not
    /// know raises a synthesized "class not found" exception into the
    /// pending-fault slot.
    pub fn find_class(&mut self, name: &str) -> (r: Result<Handle, HostError>)
        requires
            old(self).pending is None,
        ensures
            same_config(*final(self), *old(self)),
            logged_one(*old(self), *final(self)),
            is_find_class(final(self).log@.last(), name@),
            fault_disciplined(r, *final(self)),
            match class_lookup(old(self).classes@, name@) {
                Some(h) => r == Ok::<Handle, HostError>(h) && final(self).pending is None
                    && final(self).fresh == old(self).fresh,
                None => r == Err::<Handle, HostError>(HostError::ExceptionPending) && (
                match final(self).pending {
                    Some(p) => p.identity == old(self).fresh && p.instance_of@ == seq![
                        NO_CLASS_DEF_FOUND_ERROR,
                    ],
                    None => false,
                }),
            },
    {
        let idx = self.class_index(name);
        self.log.push(Call::FindClass { name: name.to_owned() });
        proof {
            assert(self.log@.drop_last() =~= old(self).log@);
        }
        match idx {
            Some(i) => Ok(self.classes[i].handle),
            None => {
                let mut instance_of: Vec<Handle> = Vec::new();
                instance_of.push(NO_CLASS_DEF_FOUND_ERROR);
                proof {
                    assert(instance_of@ =~= seq![NO_CLASS_DEF_FOUND_ERROR]);
                }
                let exc = Exception { identity: self.fresh, instance_of };
                if self.fresh < u64::MAX {
                    self.fresh = self.fresh + 1;
                }
                self.pending = Some(exc);
                Err(HostError::ExceptionPending)
            },
        }
    }

    /// Invoke the member symbol a key addresses, with the given arguments.
    /// A missing member raises a synthesized exception of the signal class
    /// matching the member kind.
    pub fn invoke(
        &mut self,
        kind: MemberKind,
        target: Handle,
        name: &str,
        sig: &str,
        args: Vec<Value>,
    ) -> (r: Result<Value, HostError>)
        requires
            old(self).pending is None,
        ensures
            same_config(*final(self), *old(self)),
            logged_one(*old(self), *final(self)),
            is_member_call(final(self).log@.last(), kind, target, name@, sig@, args@),
            fault_disciplined(r, *final(self)),
            match member_outcome(*old(self), kind, target, name@, sig@) {
                MemberOutcome::Returns(v) => r == Ok::<Value, HostError>(v)
                    && final(self).pending is None && final(self).fresh == old(self).fresh,
                MemberOutcome::Throws(e) => r == Err::<Value, HostError>(
                    HostError::ExceptionPending,
                ) && pending_is(*final(self), e) && final(self).fresh == old(self).fresh,
                MemberOutcome::Missing(c) => r == Err::<Value, HostError>(
                    HostError::ExceptionPending,
                ) && (match final(self).pending {
                    Some(p) => p.identity == old(self).fresh && p.instance_of@ == seq![c],
                    None => false,
                }),
                MemberOutcome::Breaks => r == Err::<Value, HostError>(HostError::Malformed)
                    && final(self).pending is None && final(self).fresh == old(self).fresh,
            },
    {
        let idx = self.member_index(kind, target, name, sig);
        self.log.push(
            Call::Member { kind, target, name: name.to_owned(), sig: sig.to_owned(), args },
        );
        proof {
            assert(self.log@.drop_last() =~= old(self).log@);
        }
        match idx {
            Some(i) => match &self.members[i].reply {
                Reply::Value(v) => Ok(v.dup()),
                Reply::Throw(e) => {
                    let exc = e.dup();
                    self.pending = Some(exc);
                    Err(HostError::ExceptionPending)
                },
                Reply::Fail => Err(HostError::Malformed),
            },
            None => {
                let mut instance_of: Vec<Handle> = Vec::new();
                instance_of.push(missing_signal(kind));
                proof {
                    assert(instance_of@ =~= seq![missing_signal_class(kind)]);
                }
                let exc = Exception { identity: self.fresh, instance_of };
                if self.fresh < u64::MAX {
                    self.fresh = self.fresh + 1;
                }
                self.pending = Some(exc);
                Err(HostError::ExceptionPending)
            },
        }
    }

    /// The class of an object, as the host reports it.  This is a local
    /// operation: it issues no symbol lookup and cannot raise.
    pub fn get_object_class(&self, object: Handle) -> (r: Result<Handle, HostError>)
        ensures
            match object_class_lookup(self.object_classes@, object) {
                Some(c) => r == Ok::<Handle, HostError>(c),
                None => r == Err::<Handle, HostError>(HostError::Malformed),
            },
    {
        let mut i: usize = self.object_classes.len();
        proof {
            assert(self.object_classes@.take(self.object_classes@.len() as int)
                =~= self.object_classes@);
        }
        while i > 0
            invariant
                i <= self.object_classes@.len(),
                object_class_lookup(self.object_classes@, object)
                    == object_class_lookup(self.object_classes@.take(i as int), object),
            decreases i,
        {
            i = i - 1;
            proof {
                assert(self.object_classes@.take(i as int + 1).last()
                    == self.object_classes@[i as int]);
                assert(self.object_classes@.take(i as int + 1).drop_last()
                    =~= self.object_classes@.take(i as int));
            }
            if self.object_classes[i].object == object {
                return Ok(self.object_classes[i].class);
            }
        }
        proof {
            assert(self.object_classes@.take(0).len() == 0);
        }
        Err(HostError::Malformed)
    }

    /// The exception sitting in the pending-fault slot, if any.  Does not
    /// clear the slot.
    pub fn exception_occurred(&self) -> (r: Option<Exception>)
        ensures
            match self.pending {
                Some(e) => match r {
                    Some(x) => exc_eq(x, e),
                    None => false,
                },
                None => r is None,
            },
    {
        match &self.pending {
            Some(e) => Some(e.dup()),
            None => None,
        }
    }

    /// Clear the pending-fault slot unconditionally.
    pub fn exception_clear(&mut self)
        ensures
            final(self).pending is None,
            same_config(*final(self), *old(self)),
            final(self).log@ == old(self).log@,
            final(self).fresh == old(self).fresh,
    {
        self.pending = None;
    }

    /// Whether an exception object is an instance of the given class.
    pub fn is_instance_of(&self, e: &Exception, class: Handle) -> (r: bool)
        ensures
            r == e.instance_of@.contains(class),
    {
        let mut i: usize = 0;
        while i < e.instance_of.len()
            invariant
                i <= e.instance_of@.len(),
                forall|k: int| 0 <= k < i ==> e.instance_of@[k] != class,
            decreases e.instance_of@.len() - i,
        {
            if e.instance_of[i] == class {
                return true;
            }
            i = i + 1;
        }
        false
    }

    /// Raise an exception object into the pending-fault slot.
    pub fn throw(&mut self, e: Exception)
        requires
            old(self).pending is None,
        ensures
            pending_is(*final(self), e),
            same_config(*final(self), *old(self)),
            final(self).log@ == old(self).log@,
            final(self).fresh == old(self).fresh,
    {
        self.pending = Some(e);
    }
}

/// The signal class of the exception the host raises for a missing member.
fn missing_signal(kind: MemberKind) -> (c: Handle)
    ensures
        c == missing_signal_class(kind),
{
    match kind {
        MemberKind::InstanceField | MemberKind::StaticField => NO_SUCH_FIELD_ERROR,
        _ => NO_SUCH_METHOD_ERROR,
    }
}

impl Exception {
    /// A second reference to the same exception object: same identity, same
    /// type set.
    pub fn dup(&self) -> (r: Exception)
        ensures
            exc_eq(r, *self),
    {
        let mut instance_of: Vec<Handle> = Vec::new();
        let mut i: usize = 0;
        while i < self.instance_of.len()
            invariant
                i <= self.instance_of.len(),
                instance_of@ == self.instance_of@.take(i as int),
            decreases self.instance_of.len() - i,
        {
            instance_of.push(self.instance_of[i]);
            i = i + 1;
        }
        assert(self.instance_of@.take(self.instance_of@.len() as int) =~= self.instance_of@);
        Exception { identity: self.identity, instance_of }
    }
}

} // verus!
