use fgc::benchmark::{
    BenchAction, BenchEvent, BenchmarkRun, benchmark_dest, benchmark_options, benchmark_resolved, fastest, prepare_benchmark, short_error,
    BenchmarkResult,
};
use fgc::cli::{BenchmarkArgs, Strategy};
use fgc::dashboard::{footer_text, phase_color, phase_label, speed_shown, truncate, url_line, PhaseColor};
use fgc::decimal::{decimal_string, parse_unsigned_max};
use fgc::progress::CloneStatus;
use fgc::strategy::StrategyReason;
use fgc::text::{after_first_char, contains_str, trim_end_matches_str};
use fgc::words::{eq_ignore_ascii_case, lines, split_whitespace, trim};

fn bench_args(strategies: Vec<Strategy>) -> BenchmarkArgs {
    BenchmarkArgs {
        url: "https://h/repo.git".to_string(),
        strategies,
        paths: vec!["p".to_string()],
        depth: 2,
        reference: Some("/r".to_string()),
        keep: false,
        work_dir: None,
    }
}

fn result(strategy: Strategy, nanos: u128, success: bool) -> BenchmarkResult {
    BenchmarkResult { strategy, duration_nanos: nanos, size_bytes: 0, success, error: None }
}

#[test]
fn benchmark_setup() {
    let b = prepare_benchmark(bench_args(vec![Strategy::Auto, Strategy::Shallow, Strategy::Full])).unwrap();
    assert_eq!(b.strategies, vec![Strategy::Shallow, Strategy::Full]);
    let e = prepare_benchmark(bench_args(vec![Strategy::Auto])).unwrap_err();
    assert_eq!(e.to_string(), "benchmark requires at least one concrete strategy (not auto)");
    assert_eq!(benchmark_dest("/tmp", "repo", Strategy::Shallow), "/tmp/fgc-bench-repo-shallow");
    let r = benchmark_resolved(&b, Strategy::Full);
    assert_eq!((r.strategy, r.reason, r.depth), (Strategy::Full, StrategyReason::Benchmark, 2));
    let o = benchmark_options(&b);
    assert!(o.quiet && !o.enable_fallback);
    assert_eq!(o.reference.as_deref(), Some("/r"));
}

#[test]
fn fastest_successful_result() {
    let rs = vec![
        result(Strategy::Shallow, 5, false),
        result(Strategy::Blobless, 9, true),
        result(Strategy::Full, 7, true),
        result(Strategy::Sparse, 7, true),
    ];
    assert_eq!(fastest(&rs), Some(2));
    assert_eq!(fastest(&vec![result(Strategy::Full, 1, false)]), None);
    assert_eq!(short_error("short"), "short");
    assert_eq!(
        short_error("0123456789012345678901234567890123456789XYZ"),
        "0123456789012345678901234567890123456789..."
    );
}

#[test]
fn dashboard_texts() {
    let mut s = CloneStatus::new("blobless", "https://github.com/o/r.git", "r");
    assert_eq!(phase_label(0, &s.phases[0]), "[1/6] Negotiating refs ");
    s.set_phase_percent(1, 10, "2 MiB/s");
    assert_eq!(phase_label(1, &s.phases[1]), "[2/6] Receiving objects (2 MiB/s)");
    s.set_phase_active(2);
    assert_eq!(phase_color(&s, 0), PhaseColor::Done);
    assert_eq!(phase_color(&s, 2), PhaseColor::Current);
    assert_eq!(phase_color(&s, 3), PhaseColor::Waiting);
    assert_eq!(speed_shown(&s), "-");
    s.set_speed("3 MiB/s");
    assert_eq!(speed_shown(&s), "3 MiB/s");
    s.set_message("Pulling LFS files");
    assert_eq!(footer_text(&s), "Status: Pulling LFS files  |  Press 'q' to close dashboard");
    assert_eq!(truncate("abcdefgh", 5), "ab...");
    assert_eq!(truncate("abc", 5), "abc");
    assert_eq!(truncate("abcdef", 2), "...");
    assert_eq!(url_line("https://x"), "URL: https://x");
}

#[test]
fn text_helpers() {
    assert!(contains_str("hello world", "o w"));
    assert!(!contains_str("hello", "hello!"));
    assert_eq!(trim("\u{a0} a b\t\n"), "a b");
    assert_eq!(split_whitespace("  a\u{2003}b  c "), vec!["a", "b", "c"]);
    assert_eq!(lines("a\r\nb\n\nc\r"), vec!["a", "b", "", "c\r"]);
    assert!(eq_ignore_ascii_case("YeS", "yes"));
    assert!(!eq_ignore_ascii_case("yes", "ye"));
    assert_eq!(trim_end_matches_str("x.git.git", ".git"), "x");
    assert_eq!(after_first_char("a:b:c", ':'), "b:c");
    assert_eq!(after_first_char("abc", ':'), "abc");
    assert_eq!(decimal_string(0), "0");
    assert_eq!(decimal_string(1234567890), "1234567890");
    assert_eq!(parse_unsigned_max("+42", 255), Some(42));
    assert_eq!(parse_unsigned_max("256", 255), None);
    assert_eq!(parse_unsigned_max("-1", 255), None);
    assert_eq!(parse_unsigned_max("", 255), None);
    assert_eq!(parse_unsigned_max("18446744073709551615", u64::MAX), Some(u64::MAX));
    assert_eq!(parse_unsigned_max("18446744073709551616", u64::MAX), None);
}

#[test]
fn decimal_text_reads_back() {
    for n in [0u64, 7, 10, 99, 100, 65535, u64::MAX] {
        assert_eq!(parse_unsigned_max(&decimal_string(n), u64::MAX), Some(n));
    }
    assert_eq!(parse_unsigned_max(&decimal_string(255), 255), Some(255));
}

fn run_args(keep: bool) -> fgc::benchmark::BenchmarkArgs {
    prepare_benchmark(BenchmarkArgs { keep, ..bench_args(vec![Strategy::Shallow, Strategy::Full]) })
        .unwrap()
}

fn dest_of(a: &BenchAction) -> String {
    match a {
        BenchAction::Clean(d) | BenchAction::Measure(d) | BenchAction::Remove(d) => d.clone(),
        BenchAction::Clone { dest, .. } => dest.clone(),
        BenchAction::Finish(_) => String::new(),
    }
}

#[test]
fn benchmark_run_records_one_result_per_strategy() {
    let (mut run, a) = BenchmarkRun::start(run_args(false), "/w");
    assert_eq!(dest_of(&a), "/w/fgc-bench-repo-shallow");
    let a = run.on_event(BenchEvent::Cleaned);
    match &a {
        BenchAction::Clone { resolved, dest, options } => {
            assert_eq!(resolved.strategy, Strategy::Shallow);
            assert_eq!(resolved.depth, 2);
            assert_eq!(dest, "/w/fgc-bench-repo-shallow");
            assert!(options.quiet && !options.enable_fallback);
        }
        _ => panic!("expected a clone"),
    }
    let a = run.on_event(BenchEvent::Cloned(Ok(1500)));
    assert!(matches!(a, BenchAction::Measure(_)));
    let a = run.on_event(BenchEvent::Measured(4096));
    assert_eq!(dest_of(&a), "/w/fgc-bench-repo-shallow");
    assert!(matches!(a, BenchAction::Remove(_)));
    let a = run.on_event(BenchEvent::Removed);
    assert_eq!(dest_of(&a), "/w/fgc-bench-repo-full");
    run.on_event(BenchEvent::Cleaned);
    let a = run.on_event(BenchEvent::Cloned(Err(fgc::error::FgcError::from_str("git clone failed"))));
    assert!(matches!(a, BenchAction::Remove(_)));
    match run.on_event(BenchEvent::Removed) {
        BenchAction::Finish(rs) => {
            assert_eq!(rs.len(), 2);
            assert_eq!((rs[0].strategy, rs[0].duration_nanos, rs[0].size_bytes), (Strategy::Shallow, 1500, 4096));
            assert!(rs[0].success && rs[0].error.is_none());
            assert_eq!((rs[1].strategy, rs[1].duration_nanos, rs[1].size_bytes), (Strategy::Full, 0, 0));
            assert!(!rs[1].success);
            assert_eq!(rs[1].error.as_deref(), Some("git clone failed"));
        }
        _ => panic!("expected the results"),
    }
}

#[test]
fn benchmark_run_keeps_directories_with_keep() {
    let (mut run, _) = BenchmarkRun::start(run_args(true), "/w");
    run.on_event(BenchEvent::Cleaned);
    let a = run.on_event(BenchEvent::Cloned(Err(fgc::error::FgcError::from_str("x"))));
    assert!(matches!(a, BenchAction::Clean(_)));
    run.on_event(BenchEvent::Cleaned);
    run.on_event(BenchEvent::Cloned(Ok(7)));
    match run.on_event(BenchEvent::Measured(9)) {
        BenchAction::Finish(rs) => assert_eq!(rs.len(), 2),
        _ => panic!("expected the results"),
    }
    let (_, a) = BenchmarkRun::start(
        prepare_benchmark(bench_args(vec![Strategy::Full])).map(|mut b| { b.strategies.clear(); b }).unwrap(),
        "/w",
    );
    assert!(matches!(a, BenchAction::Finish(ref rs) if rs.is_empty()));
}

#[test]
fn clone_status_helpers() {
    let mut s = CloneStatus::new("full", "u", "d");
    s.finish_git_clone();
    assert_eq!((s.current_phase, s.phases[4].percent, s.phases[4].done), (4, 100, true));
    assert!(s.phases[3].done);
    assert_eq!(s.message, "Git clone complete");
    s.begin_post_step("Pulling LFS files");
    assert_eq!((s.current_phase, s.message.as_str()), (5, "Pulling LFS files"));
    s.finish_clone(false);
    assert!(s.done && !s.success);
    assert_eq!(s.message, "Clone failed");
    s.finish_clone(true);
    assert!(s.phases.iter().all(|p| p.done));
    assert_eq!(s.phases[5].percent, 100);
    assert_eq!(s.message, "Clone completed successfully");
}
