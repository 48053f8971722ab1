//! Lifecycle and caching of a proving system's public parameters.
//!
//! Generating public parameters is expensive, so the artifact is cached on
//! disk under a name derived from the proving configuration.  This crate
//! holds the governance logic: merging a base configuration with explicit
//! overrides into one concrete generation request, deriving a deterministic
//! and collision-free file name for that request, deciding whether an
//! existing artifact may be reused, and validating the variant-specific
//! preconditions before the external generation routine is dispatched.
//!
//! The generation routine itself, the configuration loader and all
//! filesystem access live outside this crate; callers hand the relevant
//! facts (does the target exist, does the auxiliary input exist) in as plain
//! values and receive a fully specified decision back.

pub mod config;
pub mod naming;
pub mod setup;
