//! Configuration model and the resolver that merges a base configuration
//! with explicit per-invocation overrides into one generation request.

use vstd::prelude::*;

verus! {

/// The generation strategy the proving system will use.  It selects the
/// code path of the external generation routine and decides which
/// preconditions apply before dispatch.
#[derive(Clone, Copy, Debug, PartialEq, Eq, Structural)]
pub enum NovaImpl {
    /// Sequential folding; no auxiliary input.
    Sequential,
    /// Parallel folding; no auxiliary input.
    Parallel,
    /// Parallel folding with compression; requires a structured-reference-string file.
    ParallelCompressible,
}

/// Base configuration: the defaults that apply when an invocation supplies
/// no explicit override.  Loaded from the environment by the caller and
/// passed in as a plain value.
#[derive(Clone, Copy, Debug)]
pub struct VmConfig {
    /// Default recursion width.
    pub k: usize,
    /// Default generation strategy.
    pub nova_impl: NovaImpl,
}

/// Explicit, possibly partial overrides for one setup invocation.
#[derive(Clone, Debug)]
pub struct SetupArgs {
    /// Recursion width override.
    pub k: Option<usize>,
    /// Strategy override.
    pub nova_impl: Option<NovaImpl>,
    /// Explicit target path; when absent the path is derived from the
    /// strategy and width.
    pub path: Option<String>,
    /// When true, regenerate even if an artifact already exists.
    pub force: bool,
    /// Path to the structured-reference-string file.
    pub srs_file: Option<String>,
}

/// The argument set with no overrides at all: every field falls back to the
/// base configuration or to its natural absence.
pub open spec fn default_setup_args() -> SetupArgs {
    SetupArgs { k: None, nova_impl: None, path: None, force: false, srs_file: None }
}

impl Default for SetupArgs {
    fn default() -> (args: SetupArgs)
        ensures
            args == default_setup_args(),
    {
        SetupArgs { k: None, nova_impl: None, path: None, force: false, srs_file: None }
    }
}

/// The parameter-management actions a caller can request.
#[derive(Clone, Debug)]
pub enum PublicParamsAction {
    /// Ensure that a parameter artifact exists, generating it if needed.
    Setup(SetupArgs),
}

/// The full argument surface of the parameter-management command; an absent
/// action defaults to a setup with no overrides.
#[derive(Clone, Debug)]
pub struct PublicParamsArgs {
    /// The requested action, if any was given.
    pub command: Option<PublicParamsAction>,
}

/// Picks the action to run: the one requested, or a setup with
/// configuration defaults when none was given.
pub fn select_action(args: PublicParamsArgs) -> (action: PublicParamsAction)
    ensures
        match args.command {
            Some(requested) => action == requested,
            None => action == PublicParamsAction::Setup(default_setup_args()),
        },
{
    match args.command {
        Some(requested) => requested,
        None => PublicParamsAction::Setup(SetupArgs::default()),
    }
}

/// One fully specified generation request, produced by the resolver and
/// consumed by the cache governor within a single invocation.
#[derive(Clone, Debug)]
pub struct GenerationRequest {
    /// Generation strategy to use.
    pub nova_impl: NovaImpl,
    /// Recursion width to use.
    pub k: usize,
    /// Bypass the reuse short-circuit.
    pub force: bool,
    /// Explicit target path, when one was supplied.
    pub target_path: Option<String>,
    /// Auxiliary structured-reference-string path, when one was supplied.
    pub srs_file: Option<String>,
}

/// The value of an optional override: the override when present, the
/// fallback otherwise.
pub open spec fn or_default<T>(overriding: Option<T>, fallback: T) -> T {
    match overriding {
        Some(v) => v,
        None => fallback,
    }
}

/// Merges the base configuration with the explicit overrides: for every
/// field an explicit override wins and absence falls back to the base
/// configuration; paths stay absent until the governor resolves them.
pub fn resolve_request(config: &VmConfig, args: SetupArgs) -> (req: GenerationRequest)
    ensures
        req.force == args.force,
        req.k == or_default(args.k, config.k),
        req.nova_impl == or_default(args.nova_impl, config.nova_impl),
        req.target_path == args.path,
        req.srs_file == args.srs_file,
{
    let k = match args.k {
        Some(k) => k,
        None => config.k,
    };
    let nova_impl = match args.nova_impl {
        Some(n) => n,
        None => config.nova_impl,
    };
    GenerationRequest {
        nova_impl,
        k,
        force: args.force,
        target_path: args.path,
        srs_file: args.srs_file,
    }
}

} // verus!
