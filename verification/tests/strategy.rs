use fgc::cli::{CloneArgs, LfsBackend, Strategy};
use fgc::github::{gitattributes_api_url, parse_github_url, repo_api_url, RepoMetadata};
use fgc::strategy::{analyze_specified, resolve_auto, StrategyReason};

fn args(url: &str, paths: Vec<String>) -> CloneArgs {
    CloneArgs {
        url: url.to_string(),
        dest: None,
        strategy: Strategy::Auto,
        paths,
        depth: 1,
        lfs_jobs: 8,
        lfs_backend: LfsBackend::Auto,
        aria2c_connections: 16,
        reference: None,
        tui: false,
        no_resume: false,
        yes: false,
    }
}

#[test]
fn ci_env_selects_shallow() {
    let args = args("https://github.com/example/repo.git", vec![]);
    let resolved = resolve_auto(&args, true, None);
    assert_eq!(resolved.strategy, Strategy::Shallow);
}

#[test]
fn large_repo_selects_blobless() {
    let args = args("https://github.com/torvalds/linux.git", vec![]);
    let meta = RepoMetadata { size_kb: 3 * 1024 * 1024, has_lfs: false };
    let resolved = resolve_auto(&args, false, Some(&meta));
    assert_eq!(resolved.strategy, Strategy::Blobless);
}

#[test]
fn auto_selection_cases() {
    let with_paths = args("u", vec!["src".to_string()]);
    let none = resolve_auto(&with_paths, false, None);
    assert_eq!(none.strategy, Strategy::Blobless);
    assert_eq!(none.reason, StrategyReason::NoMetadata);
    let lfs = RepoMetadata { size_kb: 10, has_lfs: true };
    let r = resolve_auto(&with_paths, false, Some(&lfs));
    assert_eq!(r.strategy, Strategy::Sparse);
    assert_eq!(r.reason, StrategyReason::LfsDetected);
    assert_eq!(r.sparse_paths, vec!["src".to_string()]);
    let big_lfs = RepoMetadata { size_kb: 5 * 1024 * 1024, has_lfs: true };
    let r = resolve_auto(&args("u", vec![]), false, Some(&big_lfs));
    assert_eq!(r.strategy, Strategy::Blobless);
    assert_eq!(r.reason, StrategyReason::LargeWithLfs { size_kb: 5 * 1024 * 1024 });
    let small = RepoMetadata { size_kb: 2 * 1024 * 1024, has_lfs: false };
    let r = resolve_auto(&with_paths, false, Some(&small));
    assert_eq!(r.strategy, Strategy::Blobless);
    assert_eq!(r.reason, StrategyReason::Moderate { size_kb: 2 * 1024 * 1024 });
    let r = resolve_auto(&with_paths, true, Some(&big_lfs));
    assert_eq!(r.strategy, Strategy::Shallow);
    assert_eq!(r.reason.text().as_deref(), Some("CI environment detected (CI=true)"));
}

#[test]
fn specified_strategy_skips_detection() {
    let mut a = args("u", vec![]);
    assert!(analyze_specified(&a).is_none());
    a.strategy = Strategy::Shallow;
    a.depth = 5;
    let r = analyze_specified(&a).unwrap();
    assert_eq!(r.strategy, Strategy::Shallow);
    assert_eq!(r.depth, 5);
    assert_eq!(r.reason.text().as_deref(), Some("User specified --strategy shallow"));
    assert_eq!(StrategyReason::FallbackFrom(Strategy::Blobless).text().as_deref(), Some("fallback from blobless"));
    assert_eq!(StrategyReason::Large { size_kb: 1 }.text(), None);
}

#[test]
fn github_urls() {
    assert_eq!(
        parse_github_url("https://github.com/torvalds/linux.git"),
        Some(("torvalds".to_string(), "linux".to_string()))
    );
    assert_eq!(
        parse_github_url("https://github.com//owner//repo/extra"),
        Some(("owner".to_string(), "repo".to_string()))
    );
    assert_eq!(parse_github_url("https://gitlab.com/a/b"), None);
    assert_eq!(parse_github_url("https://github.com/only"), None);
    assert_eq!(parse_github_url("not a url"), None);
    assert_eq!(repo_api_url("a", "b"), "https://api.github.com/repos/a/b");
    assert_eq!(gitattributes_api_url("a", "b"), "https://api.github.com/repos/a/b/contents/.gitattributes");
}
