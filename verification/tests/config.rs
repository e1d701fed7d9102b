use fgc::cli::{BenchmarkArgs, CloneArgs, LfsBackend, Strategy};
use fgc::config::{
    apply_config_to_benchmark, apply_config_to_clone, config_path, expand_tilde,
    parse_lfs_backend, parse_strategy, Config,
};
use fgc::error::FgcError;

fn clone_args(url: &str) -> CloneArgs {
    CloneArgs {
        url: url.to_string(),
        dest: None,
        strategy: Strategy::Auto,
        paths: vec![],
        depth: 1,
        lfs_jobs: 8,
        lfs_backend: LfsBackend::Auto,
        aria2c_connections: 16,
        reference: None,
        tui: false,
        no_resume: false,
        yes: false,
    }
}

fn full_config() -> Config {
    Config {
        default_strategy: Some("Shallow".to_string()),
        lfs_jobs: Some(4),
        depth: Some(10),
        reference: Some("~/mirror".to_string()),
        tui: Some(true),
        lfs_backend: Some("GIT".to_string()),
        aria2c_connections: Some(32),
    }
}

#[test]
fn expands_tilde_path() {
    assert_eq!(expand_tilde("~/cache/fgc", Some("/home/test")), "/home/test/cache/fgc");
}

#[test]
fn parses_strategy_names() {
    assert_eq!(parse_strategy("blobless"), Some(Strategy::Blobless));
    assert_eq!(parse_strategy("AUTO"), Some(Strategy::Auto));
    assert_eq!(parse_strategy("invalid"), None);
}

#[test]
fn parses_lfs_backend() {
    assert_eq!(parse_lfs_backend("aria2c"), Some(LfsBackend::Aria2c));
    assert_eq!(parse_lfs_backend("git"), Some(LfsBackend::Git));
}

#[test]
fn strategy_names_read_back() {
    for s in [Strategy::Auto, Strategy::Blobless, Strategy::Sparse, Strategy::Shallow, Strategy::Full] {
        assert_eq!(parse_strategy(s.as_str()), Some(s));
        assert_eq!(parse_strategy(&s.as_str().to_uppercase()), Some(s));
    }
    for b in [LfsBackend::Auto, LfsBackend::Git, LfsBackend::Aria2c] {
        assert_eq!(parse_lfs_backend(b.as_str()), Some(b));
    }
    assert_eq!(parse_lfs_backend("curl"), None);
    assert_eq!(parse_strategy("ShAlLoW"), Some(Strategy::Shallow));
}

#[test]
fn tilde_expansion_edges() {
    assert_eq!(expand_tilde("~", Some("/home/u")), "/home/u");
    assert_eq!(expand_tilde("~/x", None), "~/x");
    assert_eq!(expand_tilde("/abs/~/x", Some("/home/u")), "/abs/~/x");
    assert_eq!(expand_tilde("~user/x", Some("/home/u")), "~user/x");
}

#[test]
fn config_path_prefers_fgc_config() {
    assert_eq!(config_path(Some("/etc/fgc.toml"), Some("/xdg"), Some("/home/u")), Some("/etc/fgc.toml".to_string()));
    assert_eq!(config_path(None, Some("/xdg"), Some("/home/u")), Some("/xdg/fgc/config.toml".to_string()));
    assert_eq!(config_path(None, None, Some("/home/u")), Some("/home/u/.config/fgc/config.toml".to_string()));
    assert_eq!(config_path(None, None, None), None);
}

#[test]
fn config_load_falls_back_to_empty() {
    let c = Config::load(None);
    assert!(c.default_strategy.is_none() && c.depth.is_none() && c.tui.is_none());
    let c = Config::load(Some(Err(FgcError::from_str("bad toml"))));
    assert!(c.lfs_jobs.is_none() && c.reference.is_none());
    let c = Config::load(Some(Ok(full_config())));
    assert_eq!(c.depth, Some(10));
    assert_eq!(c.default_strategy(), Some(Strategy::Shallow));
    assert_eq!(c.lfs_backend(), Some(LfsBackend::Git));
    assert_eq!(c.expand_reference(Some("/home/u")), Some("/home/u/mirror".to_string()));
}

#[test]
fn config_fills_in_defaults_only() {
    let cfg = full_config();
    let r = apply_config_to_clone(clone_args("u"), &cfg, Some("/home/u"));
    assert_eq!(r.strategy, Strategy::Shallow);
    assert_eq!(r.lfs_jobs, 4);
    assert_eq!(r.depth, 10);
    assert_eq!(r.reference.as_deref(), Some("/home/u/mirror"));
    assert!(r.tui);
    assert_eq!(r.lfs_backend, LfsBackend::Git);
    assert_eq!(r.aria2c_connections, 32);

    let mut given = clone_args("u");
    given.strategy = Strategy::Full;
    given.lfs_jobs = 2;
    given.depth = 3;
    given.reference = Some("~/other".to_string());
    given.lfs_backend = LfsBackend::Aria2c;
    given.aria2c_connections = 4;
    let r = apply_config_to_clone(given, &cfg, Some("/home/u"));
    assert_eq!(r.strategy, Strategy::Full);
    assert_eq!(r.lfs_jobs, 2);
    assert_eq!(r.depth, 3);
    assert_eq!(r.reference.as_deref(), Some("/home/u/other"));
    assert_eq!(r.lfs_backend, LfsBackend::Aria2c);
    assert_eq!(r.aria2c_connections, 4);

    let mut bad = full_config();
    bad.default_strategy = Some("fastest".to_string());
    let r = apply_config_to_clone(clone_args("u"), &bad, None);
    assert_eq!(r.strategy, Strategy::Auto);
    assert_eq!(r.reference.as_deref(), Some("~/mirror"));
}

#[test]
fn benchmark_config_sets_depth_and_reference() {
    let args = BenchmarkArgs {
        url: "u".to_string(),
        strategies: vec![Strategy::Shallow],
        paths: vec![],
        depth: 1,
        reference: None,
        keep: false,
        work_dir: None,
    };
    let r = apply_config_to_benchmark(args, &full_config(), Some("/h"));
    assert_eq!(r.depth, 10);
    assert_eq!(r.reference.as_deref(), Some("/h/mirror"));
}
