use nexus_params::config::{
    resolve_request, select_action, NovaImpl, PublicParamsAction, PublicParamsArgs, SetupArgs,
    VmConfig,
};
use nexus_params::naming::{format_params_file, join_path};
use nexus_params::setup::{
    decide_setup, resolve_target_path, SetupError, SetupOutcome,
};

fn no_overrides() -> SetupArgs {
    SetupArgs { k: None, nova_impl: None, path: None, force: false, srs_file: None }
}

#[test]
fn file_name_is_deterministic() {
    let variants = [NovaImpl::Sequential, NovaImpl::Parallel, NovaImpl::ParallelCompressible];
    let widths: [usize; 4] = [0, 1, 10, usize::MAX];
    for v in variants {
        for k in widths {
            assert_eq!(format_params_file(v, k), format_params_file(v, k));
        }
    }
}

#[test]
fn file_name_exact_values() {
    assert_eq!(format_params_file(NovaImpl::Sequential, 10).as_str(), "nexus-public-seq-10.zst");
    assert_eq!(format_params_file(NovaImpl::Parallel, 0).as_str(), "nexus-public-par-0.zst");
    assert_eq!(
        format_params_file(NovaImpl::ParallelCompressible, 987654).as_str(),
        "nexus-public-com-987654.zst",
    );
}

#[test]
fn file_names_do_not_collide() {
    // distinct variants at a matching width
    assert_ne!(format_params_file(NovaImpl::Sequential, 10), format_params_file(NovaImpl::Parallel, 10));
    assert_ne!(
        format_params_file(NovaImpl::Sequential, 10),
        format_params_file(NovaImpl::ParallelCompressible, 10),
    );
    assert_ne!(
        format_params_file(NovaImpl::Parallel, 10),
        format_params_file(NovaImpl::ParallelCompressible, 10),
    );
    // a matching variant at distinct widths
    assert_ne!(format_params_file(NovaImpl::Sequential, 10), format_params_file(NovaImpl::Sequential, 11));
    assert_ne!(format_params_file(NovaImpl::Parallel, 1), format_params_file(NovaImpl::Parallel, 10));
    assert_ne!(
        format_params_file(NovaImpl::ParallelCompressible, 2),
        format_params_file(NovaImpl::ParallelCompressible, 20),
    );
}

#[test]
fn join_path_inserts_one_separator() {
    assert_eq!(join_path("cache", "pp.zst").as_str(), "cache/pp.zst");
}

#[test]
fn explicit_path_wins_over_derivation() {
    let path = resolve_target_path(
        Some(String::from("explicit.zst")),
        "cache",
        NovaImpl::Sequential,
        10,
    );
    assert_eq!(path.as_str(), "explicit.zst");
}

#[test]
fn derived_path_joins_cache_dir_and_canonical_name() {
    let path = resolve_target_path(None, "cache", NovaImpl::Parallel, 24);
    assert_eq!(path.as_str(), "cache/nexus-public-par-24.zst");
}

#[test]
fn reuse_short_circuit_skips_generation() {
    // A stub generator would record an invocation as a `Generate` outcome;
    // an existing artifact without `force` must instead come back `Reused`
    // with the path unchanged.
    let decision = decide_setup(
        NovaImpl::Sequential,
        10,
        false,
        None,
        String::from("cache/nexus-public-seq-10.zst"),
        true,
        false,
    );
    match decision {
        Ok(SetupOutcome::Reused { path }) => {
            assert_eq!(path.as_str(), "cache/nexus-public-seq-10.zst");
        }
        other => panic!("expected reuse, got {:?}", other),
    }
}

#[test]
fn force_regenerates_existing() {
    let decision = decide_setup(
        NovaImpl::Sequential,
        10,
        true,
        None,
        String::from("cache/nexus-public-seq-10.zst"),
        true,
        false,
    );
    match decision {
        Ok(SetupOutcome::Generate { call }) => {
            assert_eq!(call.k, 10);
            assert!(!call.parallel);
            assert!(!call.compressible);
            assert_eq!(call.target_path.as_str(), "cache/nexus-public-seq-10.zst");
            assert_eq!(call.srs_file, None);
        }
        other => panic!("expected generation, got {:?}", other),
    }
}

#[test]
fn compressible_without_srs_fails_distinctly() {
    let decision = decide_setup(
        NovaImpl::ParallelCompressible,
        10,
        false,
        None,
        String::from("cache/nexus-public-com-10.zst"),
        false,
        false,
    );
    assert_eq!(decision, Err(SetupError::MissingAuxiliaryInput));
}

#[test]
fn compressible_with_absent_srs_fails_distinctly() {
    let decision = decide_setup(
        NovaImpl::ParallelCompressible,
        10,
        false,
        Some(String::from("missing.srs")),
        String::from("cache/nexus-public-com-10.zst"),
        false,
        false,
    );
    assert_eq!(decision, Err(SetupError::AuxiliaryInputNotFound));
}

#[test]
fn missing_and_not_found_are_distinct_kinds() {
    assert_ne!(SetupError::MissingAuxiliaryInput, SetupError::AuxiliaryInputNotFound);
    assert_ne!(
        SetupError::MissingAuxiliaryInput.describe(),
        SetupError::AuxiliaryInputNotFound.describe(),
    );
}

#[test]
fn compressible_dispatch_carries_srs() {
    let decision = decide_setup(
        NovaImpl::ParallelCompressible,
        12,
        false,
        Some(String::from("setup.srs")),
        String::from("cache/nexus-public-com-12.zst"),
        false,
        true,
    );
    match decision {
        Ok(SetupOutcome::Generate { call }) => {
            assert_eq!(call.k, 12);
            assert!(call.parallel);
            assert!(call.compressible);
            assert_eq!(call.srs_file.as_deref(), Some("setup.srs"));
        }
        other => panic!("expected generation, got {:?}", other),
    }
}

#[test]
fn sequential_ignores_supplied_srs() {
    let decision = decide_setup(
        NovaImpl::Sequential,
        10,
        false,
        Some(String::from("setup.srs")),
        String::from("cache/nexus-public-seq-10.zst"),
        false,
        true,
    );
    match decision {
        Ok(SetupOutcome::Generate { call }) => {
            assert!(!call.parallel);
            assert!(!call.compressible);
            assert_eq!(call.srs_file, None);
        }
        other => panic!("expected generation, got {:?}", other),
    }
}

#[test]
fn parallel_dispatch_sets_only_parallel() {
    let decision = decide_setup(
        NovaImpl::Parallel,
        16,
        false,
        None,
        String::from("cache/nexus-public-par-16.zst"),
        false,
        false,
    );
    match decision {
        Ok(SetupOutcome::Generate { call }) => {
            assert!(call.parallel);
            assert!(!call.compressible);
            assert_eq!(call.srs_file, None);
        }
        other => panic!("expected generation, got {:?}", other),
    }
}

#[test]
fn end_to_end_defaults_generate_at_derived_path() {
    let config = VmConfig { k: 10, nova_impl: NovaImpl::Sequential };
    let action = select_action(PublicParamsArgs { command: None });
    let PublicParamsAction::Setup(args) = action;
    let req = resolve_request(&config, args);
    assert_eq!(req.k, 10);
    assert_eq!(req.nova_impl, NovaImpl::Sequential);
    assert!(!req.force);
    let path = resolve_target_path(req.target_path, "cache", req.nova_impl, req.k);
    assert_eq!(path.as_str(), "cache/nexus-public-seq-10.zst");
    let decision = decide_setup(
        req.nova_impl,
        req.k,
        req.force,
        req.srs_file,
        path.clone(),
        false,
        false,
    );
    match decision {
        Ok(SetupOutcome::Generate { call }) => {
            assert_eq!(call.k, 10);
            assert!(!call.parallel);
            assert!(!call.compressible);
            assert_eq!(call.target_path, path);
            assert_eq!(call.srs_file, None);
            // success of the dispatched call hands the resolved path back
            assert_eq!(call.target_path.as_str(), "cache/nexus-public-seq-10.zst");
        }
        other => panic!("expected generation, got {:?}", other),
    }
}

#[test]
fn overrides_win_over_configuration() {
    let config = VmConfig { k: 10, nova_impl: NovaImpl::Sequential };
    let args = SetupArgs {
        k: Some(24),
        nova_impl: Some(NovaImpl::Parallel),
        path: Some(String::from("out.zst")),
        force: true,
        srs_file: Some(String::from("setup.srs")),
    };
    let req = resolve_request(&config, args);
    assert_eq!(req.k, 24);
    assert_eq!(req.nova_impl, NovaImpl::Parallel);
    assert!(req.force);
    assert_eq!(req.target_path.as_deref(), Some("out.zst"));
    assert_eq!(req.srs_file.as_deref(), Some("setup.srs"));
}

#[test]
fn absent_overrides_fall_back_to_configuration() {
    let config = VmConfig { k: 16, nova_impl: NovaImpl::ParallelCompressible };
    let req = resolve_request(&config, no_overrides());
    assert_eq!(req.k, 16);
    assert_eq!(req.nova_impl, NovaImpl::ParallelCompressible);
    assert!(!req.force);
    assert_eq!(req.target_path, None);
    assert_eq!(req.srs_file, None);
}

#[test]
fn absent_command_defaults_to_plain_setup() {
    let action = select_action(PublicParamsArgs { command: None });
    let PublicParamsAction::Setup(args) = action;
    assert_eq!(args.k, None);
    assert_eq!(args.nova_impl, None);
    assert_eq!(args.path, None);
    assert!(!args.force);
    assert_eq!(args.srs_file, None);
}

#[test]
fn requested_command_is_kept() {
    let requested = SetupArgs {
        k: Some(4),
        nova_impl: Some(NovaImpl::Parallel),
        path: None,
        force: true,
        srs_file: None,
    };
    let action = select_action(PublicParamsArgs {
        command: Some(PublicParamsAction::Setup(requested)),
    });
    let PublicParamsAction::Setup(args) = action;
    assert_eq!(args.k, Some(4));
    assert_eq!(args.nova_impl, Some(NovaImpl::Parallel));
    assert!(args.force);
}
