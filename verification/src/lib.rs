//! A capability-probing compatibility layer for a versioned host runtime.
//!
//! The host runtime exposes a reflective call surface (class, field, method
//! and constructor lookup by name and type signature) whose available symbols
//! differ from release to release.  A symbol that is missing on the running
//! release signals its absence with a pending host-side exception, which
//! poisons every further call on the execution context until it is cleared.
//!
//! This crate models that call surface as explicit data ([`host::Host`]) and
//! builds, fully verified on top of it:
//!
//! - the capability probe ([`probe::CompatEnv`]), which classifies the outcome
//!   of a fallible cross-boundary call as found / absent / failed and always
//!   leaves the pending-fault slot in a known state;
//! - a resource-identifier cache ([`resources::ResourceManager`]);
//! - a feature detector and gated channel registration ([`channel`]);
//! - version-gated constructor selection and a notification builder facade
//!   ([`notification`]).
//!
//! The unverified binding that drives a real host runtime lives outside this
//! library and hands it plain values.

pub mod host;
pub mod probe;
pub mod resources;
pub mod channel;
pub mod notification;
