//! The resource-identifier cache.
//!
//! Resolving a resource name to its integer handle costs a cross-boundary
//! round-trip, so a resource manager memoizes the answer.  The cache is
//! keyed by the resource name alone, not by the accompanying kind qualifier:
//! a second lookup of the same name under a different kind returns the
//! identifier cached for the first kind without consulting the host.  That
//! is deliberate, long-standing behaviour of this layer and is stated as
//! such in the contract of [`ResourceManager::get`].  A failed lookup is
//! never cached, so a transient failure can be retried.

use vstd::prelude::*;

use crate::host::as_object_result;
use crate::host::fault_disciplined;
use crate::host::is_member_call;
use crate::host::log_extends;
use crate::host::logged_one;
use crate::host::member_outcome;
use crate::host::plain_call_result;
use crate::host::same_config;
use crate::host::Call;
use crate::host::Handle;
use crate::host::Host;
use crate::host::HostError;
use crate::host::MemberKind;
use crate::host::MemberOutcome;
use crate::host::Value;
use crate::probe::CompatEnv;

verus! {

/// The kind qualifier for drawable resources.
pub const DRAWABLE: &'static str = "drawable";

/// One memoized lookup: a resource name and the identifier the host
/// reported for it.
#[derive(Debug)]
pub struct ResourceEntry {
    pub name: String,
    pub id: i32,
}

/// The identifier cached for a name, if any.
pub open spec fn cache_lookup(t: Seq<ResourceEntry>, name: Seq<char>) -> Option<i32>
    decreases t.len(),
{
    if t.len() == 0 {
        None
    } else if t.last().name@ == name {
        Some(t.last().id)
    } else {
        cache_lookup(t.drop_last(), name)
    }
}

/// The call record is the host-side identifier lookup this manager issues:
/// a method run on its resources object carrying the name, the kind and the
/// owning-package object.
pub open spec fn is_identifier_call(
    c: Call,
    resources: Handle,
    name: Seq<char>,
    kind: Seq<char>,
    package: Handle,
) -> bool {
    match c {
        Call::Member { kind: k, target, name: n, sig, args } => {
            &&& k == MemberKind::Method
            &&& target == resources
            &&& n@ == "getIdentifier"@
            &&& sig@ == "(Ljava/lang/String;Ljava/lang/String;Ljava/lang/String;)I"@
            &&& args@.len() == 3
            &&& match args@[0] {
                Value::Str(s) => s@ == name,
                _ => false,
            }
            &&& match args@[1] {
                Value::Str(s) => s@ == kind,
                _ => false,
            }
            &&& args@[2] == Value::Object(package)
        },
        _ => false,
    }
}

/// A manager for one resources object of the host, with its memoized
/// name-to-identifier lookups.
#[derive(Debug)]
pub struct ResourceManager {
    pub env: CompatEnv,
    pub resources: Handle,
    pub package: Handle,
    pub cache: Vec<ResourceEntry>,
}

impl ResourceManager {
    /// Resolve the resources object and the owning-package object of the
    /// given application context, and start with an empty cache.
    pub fn new(env: CompatEnv, host: &mut Host, context: Handle) -> (r: Result<
        ResourceManager,
        HostError,
    >)
        requires
            old(host).pending is None,
        ensures
            same_config(*final(host), *old(host)),
            log_extends(*old(host), *final(host)),
            fault_disciplined(r, *final(host)),
            is_member_call(
                final(host).log@[old(host).log@.len() as int],
                MemberKind::Method,
                context,
                "getResources"@,
                "()Landroid/content/res/Resources;"@,
                Seq::<Value>::empty(),
            ),
            match as_object_result(
                plain_call_result(
                    *old(host),
                    MemberKind::Method,
                    context,
                    "getResources"@,
                    "()Landroid/content/res/Resources;"@,
                ),
            ) {
                Err(e) => r == Err::<ResourceManager, HostError>(e) && final(host).log@.len()
                    == old(host).log@.len() + 1,
                Ok(resources) => {
                    &&& final(host).log@.len() == old(host).log@.len() + 2
                    &&& is_member_call(
                        final(host).log@[old(host).log@.len() as int + 1],
                        MemberKind::Method,
                        context,
                        "getPackageName"@,
                        "()Ljava/lang/String;"@,
                        Seq::<Value>::empty(),
                    )
                    &&& (match as_object_result(
                        plain_call_result(
                            *old(host),
                            MemberKind::Method,
                            context,
                            "getPackageName"@,
                            "()Ljava/lang/String;"@,
                        ),
                    ) {
                        Err(e) => r == Err::<ResourceManager, HostError>(e),
                        Ok(package) => (match r {
                            Ok(m) => m.env == env && m.resources == resources && m.package
                                == package && m.cache@ == Seq::<ResourceEntry>::empty(),
                            Err(_) => false,
                        }) && final(host).pending is None,
                    })
                },
            },
    {
        proof {
            broadcast use crate::host::lemma_logged_one_extends;

        }
        let resources = host.invoke(
            MemberKind::Method,
            context,
            "getResources",
            "()Landroid/content/res/Resources;",
            Vec::new(),
        )?.as_object()?;
        let package = host.invoke(
            MemberKind::Method,
            context,
            "getPackageName",
            "()Ljava/lang/String;",
            Vec::new(),
        )?.as_object()?;
        Ok(ResourceManager { env, resources, package, cache: Vec::new() })
    }

    /// The index of the cache entry for a name, if one exists.
    fn cache_index(&self, name: &str) -> (r: Option<usize>)
        ensures
            match r {
                Some(i) => i < self.cache@.len() && self.cache@[i as int].name@ == name@
                    && cache_lookup(self.cache@, name@) == Some(self.cache@[i as int].id),
                None => cache_lookup(self.cache@, name@) is None,
            },
    {
        let name_o: String = name.to_owned();
        let mut i: usize = self.cache.len();
        proof {
            assert(self.cache@.take(self.cache@.len() as int) =~= self.cache@);
        }
        while i > 0
            invariant
                i <= self.cache@.len(),
                name_o@ == name@,
                cache_lookup(self.cache@, name@) == cache_lookup(
                    self.cache@.take(i as int),
                    name@,
                ),
            decreases i,
        {
            i = i - 1;
            proof {
                assert(self.cache@.take(i as int + 1).last() == self.cache@[i as int]);
                assert(self.cache@.take(i as int + 1).drop_last()
                    =~= self.cache@.take(i as int));
            }
            if self.cache[i].name == name_o {
                return Some(i);
            }
        }
        proof {
            assert(self.cache@.take(0).len() == 0);
        }
        None
    }

    /// Resolve a resource name to its integer identifier.
    ///
    /// A name already in the cache is answered from the cache without any
    /// cross-boundary call, whatever `kind` says now.  Otherwise the host is
    /// asked once, by name, kind and owning package; a successful answer is
    /// memoized under the name alone, a failure propagates and leaves the
    /// cache untouched.
    pub fn get(&mut self, host: &mut Host, name: &str, kind: &str) -> (r: Result<i32, HostError>)
        requires
            old(host).pending is None,
        ensures
            final(self).env == old(self).env,
            final(self).resources == old(self).resources,
            final(self).package == old(self).package,
            same_config(*final(host), *old(host)),
            fault_disciplined(r, *final(host)),
            match cache_lookup(old(self).cache@, name@) {
                Some(id) => {
                    &&& r == Ok::<i32, HostError>(id)
                    &&& *final(host) == *old(host)
                    &&& final(self).cache@ == old(self).cache@
                },
                None => {
                    &&& logged_one(*old(host), *final(host))
                    &&& is_identifier_call(
                        final(host).log@.last(),
                        old(self).resources,
                        name@,
                        kind@,
                        old(self).package,
                    )
                    &&& match member_outcome(
                        *old(host),
                        MemberKind::Method,
                        old(self).resources,
                        "getIdentifier"@,
                        "(Ljava/lang/String;Ljava/lang/String;Ljava/lang/String;)I"@,
                    ) {
                        MemberOutcome::Returns(Value::Int(id)) => {
                            &&& r == Ok::<i32, HostError>(id)
                            &&& final(self).cache@.len() == old(self).cache@.len() + 1
                            &&& final(self).cache@.drop_last() == old(self).cache@
                            &&& cache_lookup(final(self).cache@, name@) == Some(id)
                            &&& final(host).pending is None
                        },
                        MemberOutcome::Returns(_) => r == Err::<i32, HostError>(
                            HostError::WrongType,
                        ) && final(self).cache@ == old(self).cache@,
                        MemberOutcome::Breaks => r == Err::<i32, HostError>(
                            HostError::Malformed,
                        ) && final(self).cache@ == old(self).cache@,
                        _ => r == Err::<i32, HostError>(HostError::ExceptionPending)
                            && final(self).cache@ == old(self).cache@,
                    }
                },
            },
    {
        let cached = self.cache_index(name);
        match cached {
            Some(i) => Ok(self.cache[i].id),
            None => {
                let mut args: Vec<Value> = Vec::new();
                args.push(Value::Str(name.to_owned()));
                args.push(Value::Str(kind.to_owned()));
                args.push(Value::Object(self.package));
                let val = host.invoke(
                    MemberKind::Method,
                    self.resources,
                    "getIdentifier",
                    "(Ljava/lang/String;Ljava/lang/String;Ljava/lang/String;)I",
                    args,
                )?;
                let id = val.as_int()?;
                self.cache.push(ResourceEntry { name: name.to_owned(), id });
                proof {
                    assert(self.cache@.drop_last() =~= old(self).cache@);
                }
                Ok(id)
            },
        }
    }
}

} // verus!
