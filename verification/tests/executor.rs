use fgc::cli::Strategy;
use fgc::error::FgcError;
use fgc::executor::{
    build_clone_args, clone_error, clone_error_from_stderr, default_dest, fallback_strategies,
    is_partial_clone_error, sparse_checkout_commands, sparse_checkout_failure, sparse_checkout_plan,
    AttemptAction,
    CloneAttempts, CloneRunOptions,
};
use fgc::strategy::{ResolvedStrategy, StrategyReason};

fn resolved(strategy: Strategy) -> ResolvedStrategy {
    ResolvedStrategy {
        strategy,
        reason: StrategyReason::Benchmark,
        sparse_paths: vec!["docs".to_string()],
        depth: 3,
    }
}

fn opts(reference: Option<&str>) -> CloneRunOptions {
    CloneRunOptions { reference: reference.map(|s| s.to_string()), quiet: false, enable_fallback: true }
}

#[test]
fn default_dest_is_last_component() {
    assert_eq!(default_dest("https://github.com/torvalds/linux.git"), "linux");
    assert_eq!(default_dest("https://example.com/a/repo.git/"), "repo");
    assert_eq!(default_dest("https://example.com/a/repo///"), "repo");
    assert_eq!(default_dest("x/name.git.git"), "name");
    assert_eq!(default_dest("plain"), "plain");
}

#[test]
fn clone_args_per_strategy() {
    let a = build_clone_args(&resolved(Strategy::Blobless), "U", "D", &opts(None));
    assert_eq!(a, vec!["clone", "--progress", "--filter=blob:none", "U", "D"]);
    let a = build_clone_args(&resolved(Strategy::Sparse), "U", "D", &opts(Some("/ref")));
    assert_eq!(
        a,
        vec!["clone", "--progress", "--reference=/ref", "--dissociate", "--filter=blob:none", "--sparse", "U", "D"]
    );
    let a = build_clone_args(&resolved(Strategy::Shallow), "U", "D", &opts(None));
    assert_eq!(a, vec!["clone", "--progress", "--depth=3", "--single-branch", "U", "D"]);
    let a = build_clone_args(&resolved(Strategy::Full), "U", "D", &opts(None));
    assert_eq!(a, vec!["clone", "--progress", "U", "D"]);
    let a = build_clone_args(&resolved(Strategy::Auto), "U", "D", &opts(None));
    assert_eq!(a, vec!["clone", "--progress", "U", "D"]);
}

#[test]
fn clone_errors_name_partial_clone_refusals() {
    let e = clone_error_from_stderr(&resolved(Strategy::Blobless), "fatal: FILTER not supported");
    assert_eq!(
        e.to_string(),
        "Server does not support partial clone (blobless). Use --strategy shallow or --strategy full."
    );
    let e = clone_error_from_stderr(&resolved(Strategy::Sparse), "error: unknown option `sparse'");
    assert_eq!(
        e.to_string(),
        "Server does not support partial clone (sparse). Use --strategy shallow or --strategy full."
    );
    let e = clone_error_from_stderr(&resolved(Strategy::Shallow), "fatal: filter");
    assert_eq!(e.to_string(), "git clone failed:\nfatal: filter");
    let e = clone_error(&resolved(Strategy::Full), b"fatal: repository not found");
    assert_eq!(e.to_string(), "git clone failed:\nfatal: repository not found");
}

#[test]
fn partial_clone_errors_are_recognised() {
    assert!(is_partial_clone_error(&FgcError::from_str("Server Does Not Support partial clone")));
    assert!(is_partial_clone_error(&FgcError::from_str("bad FILTER spec")));
    assert!(is_partial_clone_error(&FgcError::from_str("error: Unknown Option")));
    assert!(!is_partial_clone_error(&FgcError::from_str("network unreachable")));
}

fn attempted(a: &AttemptAction) -> (Strategy, Option<Strategy>) {
    match a {
        AttemptAction::Attempt { resolved, fallback_from } => (resolved.strategy, *fallback_from),
        _ => panic!("expected an attempt"),
    }
}

fn finished_ok(a: &AttemptAction) -> bool {
    matches!(a, AttemptAction::Finish(Ok(())))
}

fn finished_err(a: AttemptAction) -> String {
    match a {
        AttemptAction::Finish(Err(e)) => e.to_string(),
        _ => panic!("expected a failure"),
    }
}

#[test]
fn fallback_walks_the_chain() {
    assert_eq!(fallback_strategies(Strategy::Sparse), vec![Strategy::Shallow, Strategy::Full]);
    assert_eq!(fallback_strategies(Strategy::Shallow), vec![Strategy::Full]);
    assert!(fallback_strategies(Strategy::Full).is_empty());

    let (mut run, first) = CloneAttempts::start(&resolved(Strategy::Blobless), true);
    assert_eq!(attempted(&first), (Strategy::Blobless, None));
    let a = run.on_outcome(Err(FgcError::from_str("Server does not support partial clone (blobless).")));
    assert!(matches!(a, AttemptAction::Cleanup));
    let a = run.on_outcome(Ok(()));
    assert_eq!(attempted(&a), (Strategy::Shallow, Some(Strategy::Blobless)));
    if let AttemptAction::Attempt { resolved, .. } = &a {
        assert_eq!(resolved.reason, StrategyReason::FallbackFrom(Strategy::Blobless));
        assert_eq!(resolved.depth, 3);
        assert_eq!(resolved.sparse_paths, vec!["docs".to_string()]);
    }
    // a shallow fallback that fails for any reason moves on
    let a = run.on_outcome(Err(FgcError::from_str("timeout")));
    assert_eq!(attempted(&a), (Strategy::Full, Some(Strategy::Blobless)));
    let a = run.on_outcome(Ok(()));
    assert!(finished_ok(&a));
}

#[test]
fn fallback_gives_up_with_first_error() {
    let (mut run, _) = CloneAttempts::start(&resolved(Strategy::Shallow), true);
    let a = run.on_outcome(Err(FgcError::from_str("filter rejected")));
    assert!(matches!(a, AttemptAction::Cleanup));
    let a = run.on_outcome(Ok(()));
    assert_eq!(attempted(&a), (Strategy::Full, Some(Strategy::Shallow)));
    let a = run.on_outcome(Err(FgcError::from_str("does not support this")));
    assert_eq!(finished_err(a), "filter rejected");

    let (mut run, _) = CloneAttempts::start(&resolved(Strategy::Full), true);
    let a = run.on_outcome(Err(FgcError::from_str("filter problem")));
    assert!(matches!(a, AttemptAction::Cleanup));
    assert_eq!(finished_err(run.on_outcome(Ok(()))), "filter problem");
}

#[test]
fn fallback_stops_on_other_errors() {
    let (mut run, _) = CloneAttempts::start(&resolved(Strategy::Blobless), false);
    assert_eq!(finished_err(run.on_outcome(Err(FgcError::from_str("filter")))), "filter");

    let (mut run, _) = CloneAttempts::start(&resolved(Strategy::Blobless), true);
    assert_eq!(finished_err(run.on_outcome(Err(FgcError::from_str("auth failed")))), "auth failed");

    let (mut run, _) = CloneAttempts::start(&resolved(Strategy::Sparse), true);
    run.on_outcome(Err(FgcError::from_str("partial clone refused")));
    run.on_outcome(Ok(()));
    let a = run.on_outcome(Err(FgcError::from_str("timeout")));
    assert_eq!(attempted(&a), (Strategy::Full, Some(Strategy::Sparse)));
    assert_eq!(finished_err(run.on_outcome(Err(FgcError::from_str("disk full")))), "disk full");
}

#[test]
fn sparse_commands() {
    assert!(sparse_checkout_commands(&vec![]).is_empty());
    let c = sparse_checkout_commands(&vec!["src".to_string(), "docs".to_string()]);
    assert_eq!(c[0], vec!["sparse-checkout", "init", "--cone"]);
    assert_eq!(c[1], vec!["sparse-checkout", "set", "src", "docs"]);
    assert_eq!(sparse_checkout_failure(0, b"boom").to_string(), "sparse-checkout init failed: boom");
    assert_eq!(sparse_checkout_failure(1, b"bang").to_string(), "sparse-checkout set failed: bang");
    assert_eq!(
        sparse_checkout_failure(1, b"bad \xff byte").to_string(),
        "sparse-checkout set failed: bad \u{fffd} byte"
    );
}

#[test]
fn sparse_plan_checks_paths_then_destination() {
    assert!(sparse_checkout_plan("d", &vec![], false).unwrap().is_empty());
    let e = sparse_checkout_plan("repo", &vec!["src".to_string()], false).unwrap_err();
    assert_eq!(e.to_string(), "Destination not found: repo");
    let c = sparse_checkout_plan("repo", &vec!["src".to_string()], true).unwrap();
    assert_eq!(c, vec![vec!["sparse-checkout", "init", "--cone"], vec!["sparse-checkout", "set", "src"]]);
}
