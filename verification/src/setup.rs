//! The cache governor: path resolution, the reuse short-circuit, and the
//! variant-specific precondition checks that gate dispatch to the external
//! generation routine.
//!
//! Filesystem facts enter as plain booleans supplied by the caller, and the
//! decision comes back as a value: either the existing artifact is reused,
//! or one fully specified generation call must be made, or the invocation
//! fails with a distinct error kind.

use vstd::prelude::*;
use crate::config::NovaImpl;
use crate::naming::{format_params_file, join_path, params_file_name};

verus! {

/// The failure kinds a setup invocation can surface.  Every failure is
/// terminal for the invocation; this layer performs no recovery or retry.
#[derive(Clone, Copy, Debug, PartialEq, Eq, Structural)]
pub enum SetupError {
    /// The base configuration could not be loaded.
    Configuration,
    /// A resolved path is not representable in the text encoding the
    /// generation routine accepts.
    PathEncoding,
    /// The compressible strategy was requested without an auxiliary
    /// structured-reference-string path; the caller must supply one.
    MissingAuxiliaryInput,
    /// An auxiliary structured-reference-string path was supplied but no
    /// file exists there; the caller must fix the path.
    AuxiliaryInputNotFound,
    /// An existence check or the generation routine's own I/O failed.
    Filesystem,
    /// The generation routine itself failed.
    Generation,
}

impl SetupError {
    /// A short message describing this failure kind.
    pub fn describe(&self) -> (msg: &'static str)
        ensures
            match self {
                SetupError::Configuration => msg@ == "configuration could not be loaded"@,
                SetupError::PathEncoding => msg@ == "path is not valid utf8"@,
                SetupError::MissingAuxiliaryInput => msg@
                    == "an SRS file is required for parallel compressible parameters"@,
                SetupError::AuxiliaryInputNotFound => msg@ == "SRS file was not found"@,
                SetupError::Filesystem => msg@ == "filesystem operation failed"@,
                SetupError::Generation => msg@ == "parameter generation failed"@,
            },
    {
        match self {
            SetupError::Configuration => "configuration could not be loaded",
            SetupError::PathEncoding => "path is not valid utf8",
            SetupError::MissingAuxiliaryInput => {
                "an SRS file is required for parallel compressible parameters"
            },
            SetupError::AuxiliaryInputNotFound => "SRS file was not found",
            SetupError::Filesystem => "filesystem operation failed",
            SetupError::Generation => "parameter generation failed",
        }
    }
}

/// One fully specified call to the external generation routine: the
/// recursion width, the two mode flags, the target path the artifact must
/// be written to, and the auxiliary input path when compression needs one.
#[derive(Clone, Debug, PartialEq, Eq)]
pub struct GenerationCall {
    /// Recursion width handed to the generator.
    pub k: usize,
    /// Whether the generator runs its parallel code path.
    pub parallel: bool,
    /// Whether the generator produces compressible parameters.
    pub compressible: bool,
    /// Where the artifact must be written.
    pub target_path: String,
    /// The structured-reference-string file, required exactly when
    /// `compressible` is set.
    pub srs_file: Option<String>,
}

/// The governor's verdict for one invocation.
#[derive(Clone, Debug, PartialEq, Eq)]
pub enum SetupOutcome {
    /// An artifact already exists at `path` and may be reused; generation
    /// is not invoked.
    Reused {
        /// The resolved path of the existing artifact.
        path: String,
    },
    /// No reusable artifact: the generation routine must be invoked with
    /// exactly this call.
    Generate {
        /// The fully specified generation call.
        call: GenerationCall,
    },
}

/// Resolves the target path: an explicit path wins unchanged; otherwise
/// the canonical file name for the strategy and width is joined under the
/// cache directory.
pub fn resolve_target_path(
    explicit: Option<String>,
    cache_dir: &str,
    nova_impl: NovaImpl,
    k: usize,
) -> (path: String)
    ensures
        match explicit {
            Some(p) => path == p,
            None => path@ == cache_dir@ + "/"@ + params_file_name(nova_impl, k as nat),
        },
{
    match explicit {
        Some(p) => p,
        None => {
            let name = format_params_file(nova_impl, k);
            join_path(cache_dir, name.as_str())
        },
    }
}

/// Decides reuse versus regeneration and validates the variant-specific
/// preconditions.
///
/// `target_exists` and `srs_exists` are the filesystem facts for the
/// resolved `target_path` and for the supplied `srs_file`; `srs_exists` is
/// consulted only when the compressible strategy supplied an auxiliary
/// path.  With `force` unset and an existing target the invocation
/// short-circuits to reuse and generation is never requested; otherwise
/// the strategy fixes the mode flags of the one generation call, and the
/// compressible strategy fails distinctly on a missing or non-existent
/// auxiliary input before any generation is requested.
pub fn decide_setup(
    nova_impl: NovaImpl,
    k: usize,
    force: bool,
    srs_file: Option<String>,
    target_path: String,
    target_exists: bool,
    srs_exists: bool,
) -> (decision: Result<SetupOutcome, SetupError>)
    ensures
        !force && target_exists ==> decision == Ok::<SetupOutcome, SetupError>((SetupOutcome::Reused { path: target_path })),
        force || !target_exists ==> match nova_impl {
            NovaImpl::Sequential => decision == Ok::<SetupOutcome, SetupError>(
                (SetupOutcome::Generate {
                    call: (GenerationCall {
                        k: k,
                        parallel: false,
                        compressible: false,
                        target_path: target_path,
                        srs_file: None,
                    }),
                }),
            ),
            NovaImpl::Parallel => decision == Ok::<SetupOutcome, SetupError>(
                (SetupOutcome::Generate {
                    call: (GenerationCall {
                        k: k,
                        parallel: true,
                        compressible: false,
                        target_path: target_path,
                        srs_file: None,
                    }),
                }),
            ),
            NovaImpl::ParallelCompressible => match srs_file {
                None => decision == Err::<SetupOutcome, SetupError>(SetupError::MissingAuxiliaryInput),
                Some(srs) => if srs_exists {
                    decision == Ok::<SetupOutcome, SetupError>(
                        (SetupOutcome::Generate {
                            call: (GenerationCall {
                                k: k,
                                parallel: true,
                                compressible: true,
                                target_path: target_path,
                                srs_file: Some(srs),
                            }),
                        }),
                    )
                } else {
                    decision == Err::<SetupOutcome, SetupError>(SetupError::AuxiliaryInputNotFound)
                },
            },
        },
{
    if !force && target_exists {
        return Ok(SetupOutcome::Reused { path: target_path });
    }
    match nova_impl {
        NovaImpl::Sequential => Ok(
            SetupOutcome::Generate {
                call: GenerationCall {
                    k: k,
                    parallel: false,
                    compressible: false,
                    target_path: target_path,
                    srs_file: None,
                },
            },
        ),
        NovaImpl::Parallel => Ok(
            SetupOutcome::Generate {
                call: GenerationCall {
                    k: k,
                    parallel: true,
                    compressible: false,
                    target_path: target_path,
                    srs_file: None,
                },
            },
        ),
        NovaImpl::ParallelCompressible => match srs_file {
            None => Err(SetupError::MissingAuxiliaryInput),
            Some(srs) => if srs_exists {
                Ok(
                    SetupOutcome::Generate {
                        call: GenerationCall {
                            k: k,
                            parallel: true,
                            compressible: true,
                            target_path: target_path,
                            srs_file: Some(srs),
                        },
                    },
                )
            } else {
                Err(SetupError::AuxiliaryInputNotFound)
            },
        },
    }
}

} // verus!
