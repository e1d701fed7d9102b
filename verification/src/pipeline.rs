use vstd::prelude::*;
use crate::error::FgcError;
use crate::resume::{
    skips_git_clone, skips_lfs, skips_sparse, should_skip_git_clone, should_skip_lfs,
    should_skip_sparse, ClonePhase, CloneState,
};

verus! {

/// One step of a clone, in the order `fgc clone` runs them.
#[derive(Debug, Clone, Copy, PartialEq, Eq, Structural)]
pub enum PipelineStep {
    /// Record the phase in the saved state and write the state out.
    SaveState(ClonePhase),
    /// Run `git clone` (with fallback).
    GitClone,
    /// Tell the user that `git clone` is skipped for a resumed clone.
    ReportSkippedClone,
    /// Apply the sparse checkout paths.
    SparseCheckout,
    /// Fetch LFS objects.
    PullLfs,
    /// Remove the saved state.
    RemoveState,
}

/// The steps of a clone that starts (or resumes) at phase `start`; `sparse` says
/// whether the strategy is sparse with paths to check out.
pub open spec fn clone_plan(start: ClonePhase, sparse: bool) -> Seq<PipelineStep> {
    let clone_part = if !skips_git_clone(start) {
        seq![
            PipelineStep::SaveState(ClonePhase::GitClone),
            PipelineStep::GitClone,
            PipelineStep::SaveState(ClonePhase::SparseCheckout),
        ]
    } else {
        seq![PipelineStep::ReportSkippedClone]
    };
    let after_clone = if !skips_git_clone(start) {
        ClonePhase::SparseCheckout
    } else {
        start
    };
    let sparse_part = if sparse {
        if !skips_sparse(after_clone) {
            seq![PipelineStep::SparseCheckout, PipelineStep::SaveState(ClonePhase::LfsPull)]
        } else {
            Seq::empty()
        }
    } else {
        seq![PipelineStep::SaveState(ClonePhase::LfsPull)]
    };
    let after_sparse = if sparse {
        if !skips_sparse(after_clone) {
            ClonePhase::LfsPull
        } else {
            after_clone
        }
    } else {
        ClonePhase::LfsPull
    };
    let lfs_part = if !skips_lfs(after_sparse) {
        seq![PipelineStep::PullLfs]
    } else {
        Seq::empty()
    };
    clone_part + sparse_part + lfs_part + seq![
        PipelineStep::SaveState(ClonePhase::Completed),
        PipelineStep::RemoveState,
    ]
}

/// The steps of a clone that starts (or resumes) at phase `start`.
pub fn plan_clone(start: ClonePhase, sparse: bool) -> (v: Vec<PipelineStep>)
    ensures
        v@ == clone_plan(start, sparse),
{
    let mut v: Vec<PipelineStep> = Vec::new();
    let probe = CloneState {
        url: String::new(),
        dest: String::new(),
        strategy: String::new(),
        phase: start,
        sparse_paths: Vec::new(),
        depth: 0,
        lfs_jobs: 0,
    };
    let mut phase = start;
    if !should_skip_git_clone(&probe) {
        v.push(PipelineStep::SaveState(ClonePhase::GitClone));
        v.push(PipelineStep::GitClone);
        v.push(PipelineStep::SaveState(ClonePhase::SparseCheckout));
        phase = ClonePhase::SparseCheckout;
    } else {
        v.push(PipelineStep::ReportSkippedClone);
    }
    let probe = CloneState { phase, ..probe };
    if sparse {
        if !should_skip_sparse(&probe) {
            v.push(PipelineStep::SparseCheckout);
            v.push(PipelineStep::SaveState(ClonePhase::LfsPull));
            phase = ClonePhase::LfsPull;
        }
    } else {
        v.push(PipelineStep::SaveState(ClonePhase::LfsPull));
        phase = ClonePhase::LfsPull;
    }
    let probe = CloneState { phase, ..probe };
    if !should_skip_lfs(&probe) {
        v.push(PipelineStep::PullLfs);
    }
    v.push(PipelineStep::SaveState(ClonePhase::Completed));
    v.push(PipelineStep::RemoveState);
    assert(v@ =~= clone_plan(start, sparse));
    v
}

/// What the caller does next in a clone.
#[derive(Debug)]
pub enum PipelineAction {
    /// Write out the saved state (its phase was just updated).
    Save,
    /// Run `git clone` (with fallback).
    GitClone,
    /// Tell the user that `git clone` is skipped, giving the saved phase.
    ReportSkippedClone,
    /// Apply the sparse checkout paths.
    SparseCheckout,
    /// Fetch LFS objects.
    PullLfs,
    /// Remove the saved state.
    RemoveState,
    /// Write out the saved state (now marked failed); a failure to write is ignored.
    SaveIgnoringError,
    /// The clone is over with this outcome.
    Finish(Result<(), FgcError>),
}

/// Where a clone stands.
enum PipelineStage {
    Running,
    CloneFailed(FgcError),
    FailureRecorded,
    Finished,
}

/// The decisions of `fgc clone` between its steps (saving state, cloning, sparse
/// checkout, LFS, cleanup), driven by the outcome of each step.
pub struct ClonePipeline {
    plan: Vec<PipelineStep>,
    pos: usize,
    state: CloneState,
    stage: PipelineStage,
}

/// The action that runs step `s`.
pub open spec fn step_action(a: PipelineAction, s: PipelineStep) -> bool {
    match s {
        PipelineStep::SaveState(_) => a is Save,
        PipelineStep::GitClone => a is GitClone,
        PipelineStep::ReportSkippedClone => a is ReportSkippedClone,
        PipelineStep::SparseCheckout => a is SparseCheckout,
        PipelineStep::PullLfs => a is PullLfs,
        PipelineStep::RemoveState => a is RemoveState,
    }
}

/// The phase the saved state holds once step `s` has begun, coming from `p`.
pub open spec fn phase_after(p: ClonePhase, s: PipelineStep) -> ClonePhase {
    match s {
        PipelineStep::SaveState(q) => q,
        _ => p,
    }
}

/// The action finishes with an error whose message is `m`.
pub open spec fn finishes_with(a: PipelineAction, m: Seq<char>) -> bool {
    match a {
        PipelineAction::Finish(Err(e)) => e@ == m,
        _ => false,
    }
}

/// The phase written by the last `SaveState` among the first `n` steps of `plan`.
pub open spec fn last_written(plan: Seq<PipelineStep>, n: nat) -> Option<ClonePhase>
    decreases n,
{
    if n == 0 {
        None
    } else {
        match plan[n - 1] {
            PipelineStep::SaveState(q) => Some(q),
            _ => last_written(plan, (n - 1) as nat),
        }
    }
}

/// The rank of a written phase; nothing written ranks below every phase.
pub open spec fn written_rank(w: Option<ClonePhase>) -> int {
    match w {
        Some(p) => phase_rank(p),
        None => -1,
    }
}

/// The `SaveState` steps of `plan` name phases of strictly increasing rank.
pub open spec fn saves_increase(plan: Seq<PipelineStep>) -> bool {
    forall|i: int, j: int, a: ClonePhase, b: ClonePhase|
        0 <= i < j < plan.len() && plan[i] == PipelineStep::SaveState(a) && plan[j]
            == PipelineStep::SaveState(b) ==> phase_rank(a) < phase_rank(b)
}

proof fn lemma_last_written_in(plan: Seq<PipelineStep>, n: nat)
    requires
        n <= plan.len(),
    ensures
        last_written(plan, n) matches Some(q) ==> exists|i: int|
            0 <= i < n && plan[i] == PipelineStep::SaveState(q),
    decreases n,
{
    if n > 0 {
        lemma_last_written_in(plan, (n - 1) as nat);
        match plan[n - 1] {
            PipelineStep::SaveState(q) => {
                assert(plan[n - 1] == PipelineStep::SaveState(q));
            },
            _ => {},
        }
    }
}

/// Each write asked for ranks above every earlier one in the plan.
proof fn lemma_next_save_ranks_higher(plan: Seq<PipelineStep>, n: nat, b: ClonePhase)
    requires
        saves_increase(plan),
        n < plan.len(),
        plan[n as int] == PipelineStep::SaveState(b),
    ensures
        written_rank(last_written(plan, n)) < phase_rank(b),
{
    lemma_last_written_in(plan, n);
    match last_written(plan, n) {
        Some(q) => {
            let i = choose|i: int| 0 <= i < n && plan[i] == PipelineStep::SaveState(q);
            assert(plan[i] == PipelineStep::SaveState(q));
        },
        None => {
            assert(phase_rank(b) >= 0);
        },
    }
}

impl ClonePipeline {
    /// The planned steps.
    pub closed spec fn steps(&self) -> Seq<PipelineStep> {
        self.plan@
    }

    /// The index of the step that runs now.
    pub closed spec fn position(&self) -> int {
        self.pos as int
    }

    /// Whether a failed `git clone` is being recorded.
    pub closed spec fn recording_failure(&self) -> bool {
        self.stage is CloneFailed
    }

    /// The error of the failed `git clone` being recorded.
    pub closed spec fn clone_error(&self) -> Seq<char> {
        match self.stage {
            PipelineStage::CloneFailed(e) => e@,
            _ => Seq::empty(),
        }
    }

    /// Whether the clone is over.
    pub closed spec fn finished(&self) -> bool {
        self.stage is Finished || self.stage is FailureRecorded
    }

    /// The phase in the saved state.
    pub closed spec fn phase(&self) -> ClonePhase {
        self.state.phase
    }

    /// The saved state apart from its phase.
    pub closed spec fn url(&self) -> Seq<char> {
        self.state.url@
    }

    /// The phase of the last write of the saved state that the clone asked for,
    /// if any: `Failed` once a failed `git clone` is recorded.
    pub closed spec fn written(&self) -> Option<ClonePhase> {
        match self.stage {
            PipelineStage::CloneFailed(_) => Some(ClonePhase::Failed),
            PipelineStage::FailureRecorded => Some(ClonePhase::Failed),
            _ => last_written(self.plan@, (self.pos + 1) as nat),
        }
    }

    /// The pipeline's invariant.
    pub closed spec fn wf(&self) -> bool {
        &&& self.plan@.len() >= 2
        &&& self.pos < self.plan@.len()
        &&& saves_increase(self.plan@)
        &&& self.plan@.last() == PipelineStep::RemoveState
        &&& self.plan@[self.plan@.len() - 2] == PipelineStep::SaveState(ClonePhase::Completed)
    }

    /// A pipeline recording a failure is not finished; the step that runs is one of
    /// the plan, which ends by writing `Completed` and removing the saved state.
    pub proof fn law_pipeline_stage(&self)
        requires
            self.wf(),
        ensures
            self.recording_failure() ==> !self.finished(),
            self.recording_failure() ==> self.written() == Some(ClonePhase::Failed),
            0 <= self.position() < self.steps().len(),
            self.steps().len() >= 2,
            self.steps().last() == PipelineStep::RemoveState,
            self.steps()[self.steps().len() - 2] == PipelineStep::SaveState(ClonePhase::Completed),
    {
    }

    /// The saved state, for writing it out.
    pub fn state(&self) -> (s: &CloneState)
        ensures
            s.phase == self.phase(),
            s.url@ == self.url(),
    {
        &self.state
    }

    /// Starts a clone from `state` (fresh or resumed); `sparse` says whether the
    /// strategy is sparse with paths to check out. The first action runs the first
    /// planned step.
    pub fn start(state: CloneState, sparse: bool) -> (res: (ClonePipeline, PipelineAction))
        ensures
            res.0.wf(),
            res.0.steps() == clone_plan(state.phase, sparse),
            res.0.position() == 0,
            !res.0.finished() && !res.0.recording_failure(),
            res.0.url() == state.url@,
            res.0.phase() == phase_after(state.phase, clone_plan(state.phase, sparse)[0]),
            step_action(res.1, clone_plan(state.phase, sparse)[0]),
            !(res.1 is Finish),
            res.0.written() == (if res.1 is Save {
                Some(res.0.phase())
            } else {
                None::<ClonePhase>
            }),
    {
        proof {
            law_plan_ends_completed(state.phase, sparse);
            law_saved_phases_advance(state.phase, sparse);
        }
        let plan = plan_clone(state.phase, sparse);
        let mut p = ClonePipeline { plan, pos: 0, state, stage: PipelineStage::Running };
        let a = p.begin_step();
        proof {
            reveal_with_fuel(last_written, 2);
        }
        (p, a)
    }

    /// Begins the step at the current position.
    fn begin_step(&mut self) -> (a: PipelineAction)
        requires
            old(self).wf(),
        ensures
            final(self).plan@ == old(self).plan@,
            final(self).pos == old(self).pos,
            final(self).stage == old(self).stage,
            final(self).state.url == old(self).state.url,
            final(self).state.phase == phase_after(old(self).state.phase, old(self).plan@[old(self).pos as int]),
            step_action(a, old(self).plan@[old(self).pos as int]),
    {
        match self.plan[self.pos] {
            PipelineStep::SaveState(p) => {
                self.state.phase = p;
                PipelineAction::Save
            },
            PipelineStep::GitClone => PipelineAction::GitClone,
            PipelineStep::ReportSkippedClone => PipelineAction::ReportSkippedClone,
            PipelineStep::SparseCheckout => PipelineAction::SparseCheckout,
            PipelineStep::PullLfs => PipelineAction::PullLfs,
            PipelineStep::RemoveState => PipelineAction::RemoveState,
        }
    }

    /// Takes the outcome of the last action and says what to do next: after a
    /// success the next planned step runs, or the clone finishes with success after
    /// the last one; a failed `git clone` marks the saved state failed and writes it
    /// (ignoring a failure to write) before finishing with the clone's error; any
    /// other failure finishes with that failure.
    pub fn on_outcome(&mut self, outcome: Result<(), FgcError>) -> (a: PipelineAction)
        requires
            old(self).wf(),
            !old(self).finished(),
        ensures
            final(self).wf(),
            final(self).steps() == old(self).steps(),
            final(self).url() == old(self).url(),
            (a is Finish) == final(self).finished(),
            // the phases written only ever rise, strictly with each write
            written_rank(old(self).written()) <= written_rank(final(self).written()),
            a is Save ==> written_rank(old(self).written()) < phase_rank(final(self).phase())
                && final(self).written() == Some(final(self).phase()),
            !(a is Save) && !(a is SaveIgnoringError) ==> final(self).written() == old(
                self,
            ).written(),
            // a clone ends well only after writing `Completed` and removing the state
            a matches PipelineAction::Finish(Ok(())) ==> outcome is Ok && old(self).steps()[old(
                self,
            ).position()] == PipelineStep::RemoveState && old(self).written() == Some(
                ClonePhase::Completed,
            ),
            old(self).recording_failure() ==> final(self).finished() && finishes_with(
                a,
                old(self).clone_error(),
            ),
            !old(self).recording_failure() ==> match outcome {
                Ok(()) => if old(self).position() + 1 < old(self).steps().len() {
                    &&& final(self).position() == old(self).position() + 1
                    &&& !final(self).finished() && !final(self).recording_failure()
                    &&& final(self).phase() == phase_after(
                        old(self).phase(),
                        old(self).steps()[old(self).position() + 1],
                    )
                    &&& step_action(a, old(self).steps()[old(self).position() + 1])
                } else {
                    final(self).finished() && a matches PipelineAction::Finish(Ok(()))
                },
                Err(e) => if old(self).steps()[old(self).position()] == PipelineStep::GitClone {
                    &&& final(self).recording_failure()
                    &&& !final(self).finished()
                    &&& final(self).written() == Some(ClonePhase::Failed)
                    &&& final(self).clone_error() == e@
                    &&& final(self).phase() == ClonePhase::Failed
                    &&& a is SaveIgnoringError
                } else {
                    final(self).finished() && finishes_with(a, e@)
                },
            },
    {
        let mut stage = PipelineStage::Finished;
        std::mem::swap(&mut stage, &mut self.stage);
        match stage {
            PipelineStage::CloneFailed(e) => {
                self.stage = PipelineStage::FailureRecorded;
                PipelineAction::Finish(Err(e))
            },
            _ => match outcome {
                Ok(()) => {
                    if self.pos < self.plan.len() - 1 {
                        let ghost before = last_written(self.plan@, (self.pos + 1) as nat);
                        self.pos = self.pos + 1;
                        self.stage = PipelineStage::Running;
                        proof {
                            match self.plan@[self.pos as int] {
                                PipelineStep::SaveState(b) => {
                                    lemma_next_save_ranks_higher(self.plan@, self.pos as nat, b);
                                },
                                _ => {
                                    assert(last_written(self.plan@, (self.pos + 1) as nat)
                                        == before);
                                },
                            }
                        }
                        self.begin_step()
                    } else {
                        proof {
                            let n = self.plan@.len();
                            assert(last_written(self.plan@, (n - 1) as nat) == Some(
                                ClonePhase::Completed,
                            ));
                            assert(last_written(self.plan@, n as nat) == last_written(
                                self.plan@,
                                (n - 1) as nat,
                            ));
                        }
                        PipelineAction::Finish(Ok(()))
                    }
                },
                Err(e) => {
                    if self.plan[self.pos] == PipelineStep::GitClone {
                        self.state.phase = ClonePhase::Failed;
                        self.stage = PipelineStage::CloneFailed(e);
                        PipelineAction::SaveIgnoringError
                    } else {
                        PipelineAction::Finish(Err(e))
                    }
                },
            },
        }
    }
}

} // verus!

verus! {

/// The order of phases in a clone that goes well.
pub open spec fn phase_rank(p: ClonePhase) -> int {
    match p {
        ClonePhase::NotStarted => 0,
        ClonePhase::GitClone => 1,
        ClonePhase::SparseCheckout => 2,
        ClonePhase::LfsPull => 3,
        ClonePhase::Completed => 4,
        ClonePhase::Failed => 5,
    }
}

/// Every clone, fresh or resumed, ends by recording completion and removing the
/// saved state.
pub proof fn law_plan_ends_completed(start: ClonePhase, sparse: bool)
    ensures
        clone_plan(start, sparse).len() >= 3,
        clone_plan(start, sparse).last() == PipelineStep::RemoveState,
        clone_plan(start, sparse)[clone_plan(start, sparse).len() - 2] == PipelineStep::SaveState(
            ClonePhase::Completed,
        ),
{
}

/// A resumed clone does not redo the work its saved phase says is done: past
/// `git clone` it does not clone again, and past the sparse checkout it does not
/// check out again; a clone that starts afresh (or after a failure) clones, and
/// checks out sparse paths exactly when the strategy asks for it.
pub proof fn law_resume_skips_done_work(start: ClonePhase, sparse: bool)
    ensures
        skips_git_clone(start) ==> !clone_plan(start, sparse).contains(PipelineStep::GitClone),
        skips_sparse(start) ==> !clone_plan(start, sparse).contains(PipelineStep::SparseCheckout),
        !skips_git_clone(start) ==> clone_plan(start, sparse).contains(PipelineStep::GitClone)
            && clone_plan(start, sparse).contains(PipelineStep::PullLfs) && (clone_plan(
            start,
            sparse,
        ).contains(PipelineStep::SparseCheckout) <==> sparse),
{
    let p = clone_plan(start, sparse);
    if !skips_git_clone(start) {
        assert(p[1] == PipelineStep::GitClone);
        if sparse {
            assert(p[3] == PipelineStep::SparseCheckout);
            assert(p[5] == PipelineStep::PullLfs);
        } else {
            assert(p[4] == PipelineStep::PullLfs);
            assert(!p.contains(PipelineStep::SparseCheckout)) by {
                assert forall|i: int| 0 <= i < p.len() implies p[i] != PipelineStep::SparseCheckout by {
                }
            }
        }
    } else {
        assert forall|i: int| 0 <= i < p.len() implies p[i] != PipelineStep::GitClone by {}
        if skips_sparse(start) {
            assert forall|i: int| 0 <= i < p.len() implies p[i] != PipelineStep::SparseCheckout by {}
        }
    }
}

/// The phases a clone records only move forward.
pub proof fn law_saved_phases_advance(start: ClonePhase, sparse: bool)
    ensures
        forall|i: int, j: int, a: ClonePhase, b: ClonePhase|
            0 <= i < j < clone_plan(start, sparse).len() && clone_plan(start, sparse)[i]
                == PipelineStep::SaveState(a) && clone_plan(start, sparse)[j]
                == PipelineStep::SaveState(b) ==> phase_rank(a) < phase_rank(b),
{
}

} // verus!
