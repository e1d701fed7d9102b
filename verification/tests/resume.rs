use fgc::cli::{CloneArgs, LfsBackend, Strategy};
use fgc::error::FgcError;
use fgc::pipeline::{plan_clone, ClonePipeline, PipelineAction, PipelineStep};
use fgc::resume::{
    resume_after_answer, resume_after_load, resume_first_step, should_skip_git_clone,
    should_skip_lfs, should_skip_sparse, ClonePhase, CloneState, ResumeDecision, SavePlan,
    StateLocation,
};
use fgc::strategy::{ResolvedStrategy, StrategyReason};

fn args(url: &str) -> CloneArgs {
    CloneArgs {
        url: url.to_string(),
        dest: None,
        strategy: Strategy::Auto,
        paths: vec![],
        depth: 1,
        lfs_jobs: 8,
        lfs_backend: LfsBackend::Auto,
        aria2c_connections: 16,
        reference: None,
        tui: false,
        no_resume: false,
        yes: false,
    }
}

fn state(phase: ClonePhase) -> CloneState {
    let resolved = ResolvedStrategy {
        strategy: Strategy::Sparse,
        reason: StrategyReason::Benchmark,
        sparse_paths: vec!["a".to_string()],
        depth: 2,
    };
    let mut s = CloneState::from_args(&args("https://h/r.git"), "r", &resolved);
    s.phase = phase;
    s
}

#[test]
fn state_from_args() {
    let s = state(ClonePhase::NotStarted);
    assert_eq!(s.url, "https://h/r.git");
    assert_eq!(s.dest, "r");
    assert_eq!(s.strategy, "sparse");
    assert_eq!(s.sparse_paths, vec!["a".to_string()]);
    assert_eq!((s.depth, s.lfs_jobs), (2, 8));
}

#[test]
fn state_paths() {
    assert_eq!(CloneState::git_state_path("r"), "r/.git/fgc-state.json");
    assert_eq!(CloneState::sidecar_state_path("r"), "r.fgc-state.json");
    assert_eq!(CloneState::state_paths("x"), vec!["x/.git/fgc-state.json".to_string(), "x.fgc-state.json".to_string()]);
}

#[test]
fn save_plans() {
    assert_eq!(
        state(ClonePhase::NotStarted).plan_save(false).unwrap(),
        SavePlan { write_to: StateLocation::Sidecar, move_into_repo: false }
    );
    assert_eq!(
        state(ClonePhase::GitClone).plan_save(true).unwrap(),
        SavePlan { write_to: StateLocation::Sidecar, move_into_repo: true }
    );
    assert_eq!(
        state(ClonePhase::LfsPull).plan_save(true).unwrap(),
        SavePlan { write_to: StateLocation::InRepo, move_into_repo: false }
    );
    assert_eq!(
        state(ClonePhase::Failed).plan_save(false).unwrap_err().to_string(),
        "Cannot save in-repo state before git clone completes"
    );
}

#[test]
fn skip_rules() {
    let all = [
        ClonePhase::NotStarted,
        ClonePhase::GitClone,
        ClonePhase::SparseCheckout,
        ClonePhase::LfsPull,
        ClonePhase::Completed,
        ClonePhase::Failed,
    ];
    let expect = [
        (false, false, false),
        (false, false, false),
        (true, false, false),
        (true, true, false),
        (true, true, true),
        (false, false, false),
    ];
    for (p, e) in all.iter().zip(expect.iter()) {
        let s = state(*p);
        assert_eq!((should_skip_git_clone(&s), should_skip_sparse(&s), should_skip_lfs(&s)), *e);
    }
}

#[test]
fn resume_decisions() {
    let mut a = args("https://h/r.git");
    assert_eq!(resume_first_step(&a), ResumeDecision::LoadState);
    a.no_resume = true;
    assert_eq!(resume_first_step(&a), ResumeDecision::ClearStateAndStartFresh);
    let a = args("https://h/r.git");
    assert_eq!(resume_after_load(&a, None), ResumeDecision::StartFresh);
    assert_eq!(resume_after_load(&a, Some(&state(ClonePhase::LfsPull))), ResumeDecision::Ask);
    assert_eq!(
        resume_after_load(&a, Some(&state(ClonePhase::Completed))),
        ResumeDecision::ClearStateAndStartFresh
    );
    let other = args("https://h/other.git");
    assert_eq!(resume_after_load(&other, Some(&state(ClonePhase::LfsPull))), ResumeDecision::StartFresh);
    let mut yes = args("https://h/r.git");
    yes.yes = true;
    assert_eq!(
        resume_after_load(&yes, Some(&state(ClonePhase::GitClone))),
        ResumeDecision::Resume { announce: true }
    );
    assert_eq!(resume_after_answer(" YeS \n"), ResumeDecision::Resume { announce: false });
    assert_eq!(resume_after_answer("y"), ResumeDecision::Resume { announce: false });
    assert_eq!(resume_after_answer("n"), ResumeDecision::DiscardCloneAndStartFresh);
    assert_eq!(resume_after_answer(""), ResumeDecision::DiscardCloneAndStartFresh);
}

#[test]
fn plans_for_fresh_and_resumed_clones() {
    assert_eq!(
        plan_clone(ClonePhase::NotStarted, true),
        vec![
            PipelineStep::SaveState(ClonePhase::GitClone),
            PipelineStep::GitClone,
            PipelineStep::SaveState(ClonePhase::SparseCheckout),
            PipelineStep::SparseCheckout,
            PipelineStep::SaveState(ClonePhase::LfsPull),
            PipelineStep::PullLfs,
            PipelineStep::SaveState(ClonePhase::Completed),
            PipelineStep::RemoveState
        ]
    );
    assert_eq!(
        plan_clone(ClonePhase::NotStarted, false),
        vec![
            PipelineStep::SaveState(ClonePhase::GitClone),
            PipelineStep::GitClone,
            PipelineStep::SaveState(ClonePhase::SparseCheckout),
            PipelineStep::SaveState(ClonePhase::LfsPull),
            PipelineStep::PullLfs,
            PipelineStep::SaveState(ClonePhase::Completed),
            PipelineStep::RemoveState
        ]
    );
    assert_eq!(
        plan_clone(ClonePhase::LfsPull, true),
        vec![PipelineStep::ReportSkippedClone, PipelineStep::PullLfs, PipelineStep::SaveState(ClonePhase::Completed), PipelineStep::RemoveState]
    );
    assert_eq!(
        plan_clone(ClonePhase::SparseCheckout, true),
        vec![
            PipelineStep::ReportSkippedClone,
            PipelineStep::SparseCheckout,
            PipelineStep::SaveState(ClonePhase::LfsPull),
            PipelineStep::PullLfs,
            PipelineStep::SaveState(ClonePhase::Completed),
            PipelineStep::RemoveState
        ]
    );
}

#[test]
fn pipeline_runs_plan_and_records_failure() {
    let (mut p, a) = ClonePipeline::start(state(ClonePhase::NotStarted), false);
    assert!(matches!(a, PipelineAction::Save));
    assert_eq!(p.state().phase, ClonePhase::GitClone);
    let a = p.on_outcome(Ok(()));
    assert!(matches!(a, PipelineAction::GitClone));
    let a = p.on_outcome(Err(FgcError::from_str("git clone failed:\nboom")));
    assert!(matches!(a, PipelineAction::SaveIgnoringError));
    assert_eq!(p.state().phase, ClonePhase::Failed);
    match p.on_outcome(Err(FgcError::from_str("disk"))) {
        PipelineAction::Finish(Err(e)) => assert_eq!(e.to_string(), "git clone failed:\nboom"),
        _ => panic!("expected the clone error"),
    }

    let (mut p, _) = ClonePipeline::start(state(ClonePhase::LfsPull), false);
    let mut seen = Vec::new();
    let mut a = PipelineAction::Save;
    for _ in 0..10 {
        a = p.on_outcome(Ok(()));
        match &a {
            PipelineAction::Finish(_) => break,
            PipelineAction::Save => seen.push(format!("save {:?}", p.state().phase)),
            other => seen.push(format!("{:?}", other)),
        }
    }
    assert!(matches!(a, PipelineAction::Finish(Ok(()))));
    assert_eq!(seen, vec!["save LfsPull", "PullLfs", "save Completed", "RemoveState"]);

    let (mut p, _) = ClonePipeline::start(state(ClonePhase::Failed), true);
    p.on_outcome(Ok(()));
    p.on_outcome(Ok(()));
    match p.on_outcome(Err(FgcError::from_str("state write failed"))) {
        PipelineAction::Finish(Err(e)) => assert_eq!(e.to_string(), "state write failed"),
        _ => panic!("expected the save error"),
    }
}
