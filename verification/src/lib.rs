//! A verified model of the handoff of a parsed syntax tree, together with the
//! source bytes it was parsed from, into an embedded scripting runtime.
//!
//! The library tracks two operations and the state they touch:
//!
//! * loading the tree-wrapping extension module into a runtime instance,
//!   optionally binding it under its well-known global name; and
//! * transferring ownership of a parsed tree, paired with a copy of its
//!   source bytes, into the runtime's managed object model.
//!
//! The contracts pin down the ownership-transfer protocol: a tree handle
//! crosses the boundary exactly once, the source bytes are copied rather than
//! borrowed, and module registration is idempotent per runtime instance.

pub mod laws;
pub mod runtime;
pub mod tree;
