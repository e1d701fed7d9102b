use vstd::prelude::*;
use crate::cli::{CloneArgs, strategy_name};
use crate::error::FgcError;
use crate::outside::{path_join, path_join_of};
use crate::strategy::ResolvedStrategy;
use crate::text::{clone_strings, concat2, owned};
use crate::words::{ascii_lower_seq, eq_ignore_ascii_case, trim, trim_ws};

verus! {

/// How far a clone got.
#[derive(Debug, Clone, Copy, PartialEq, Eq, Structural)]
pub enum ClonePhase {
    NotStarted,
    GitClone,
    SparseCheckout,
    LfsPull,
    Completed,
    Failed,
}

/// What is remembered about a clone so that an interrupted one can be resumed.
#[derive(Debug)]
pub struct CloneState {
    pub url: String,
    pub dest: String,
    pub strategy: String,
    pub phase: ClonePhase,
    pub sparse_paths: Vec<String>,
    pub depth: u32,
    pub lfs_jobs: u32,
}

/// Where the state of a clone into `dest` is kept once the repository exists.
pub open spec fn git_state_path_of(dest: Seq<char>) -> Seq<char> {
    path_join_of(path_join_of(dest, ".git"@), "fgc-state.json"@)
}

/// Where the state of a clone into `dest` is kept before the repository exists.
pub open spec fn sidecar_state_path_of(dest: Seq<char>) -> Seq<char> {
    dest + ".fgc-state.json"@
}

/// Where the state is written for a phase.
#[derive(Debug, Clone, Copy, PartialEq, Eq, Structural)]
pub enum StateLocation {
    /// Next to the destination directory
    Sidecar,
    /// Inside the repository's `.git` directory
    InRepo,
}

/// How to save the state: where to write it, and whether to move the written
/// file into the repository afterwards.
#[derive(Debug, Clone, Copy, PartialEq, Eq, Structural)]
pub struct SavePlan {
    pub write_to: StateLocation,
    pub move_into_repo: bool,
}

/// Where the state of a clone in `phase` belongs.
pub open spec fn save_location(phase: ClonePhase) -> StateLocation {
    if phase == ClonePhase::GitClone || phase == ClonePhase::NotStarted {
        StateLocation::Sidecar
    } else {
        StateLocation::InRepo
    }
}

impl CloneState {
    /// Where the state of a clone into `dest` is kept once the repository exists.
    pub fn git_state_path(dest: &str) -> (p: String)
        ensures
            p@ == git_state_path_of(dest@),
    {
        let git = path_join(dest, ".git");
        path_join(git.as_str(), "fgc-state.json")
    }

    /// Where the state of a clone into `dest` is kept before the repository exists.
    pub fn sidecar_state_path(dest: &str) -> (p: String)
        ensures
            p@ == sidecar_state_path_of(dest@),
    {
        concat2(dest, ".fgc-state.json")
    }

    /// The state files to look at, in the order they are read: the one in the
    /// repository first.
    pub fn state_paths(dest: &str) -> (v: Vec<String>)
        ensures
            v@.len() == 2,
            v@[0]@ == git_state_path_of(dest@),
            v@[1]@ == sidecar_state_path_of(dest@),
    {
        let mut v: Vec<String> = Vec::new();
        v.push(CloneState::git_state_path(dest));
        v.push(CloneState::sidecar_state_path(dest));
        v
    }

    /// The state of a clone that has not started.
    pub fn from_args(args: &CloneArgs, dest: &str, resolved: &ResolvedStrategy) -> (s: CloneState)
        ensures
            s.url@ == args.url@,
            s.dest@ == dest@,
            s.strategy@ == strategy_name(resolved.strategy),
            s.phase == ClonePhase::NotStarted,
            s.sparse_paths@ == resolved.sparse_paths@,
            s.depth == resolved.depth,
            s.lfs_jobs == args.lfs_jobs,
    {
        CloneState {
            url: args.url.clone(),
            dest: owned(dest),
            strategy: owned(resolved.strategy.as_str()),
            phase: ClonePhase::NotStarted,
            sparse_paths: clone_strings(&resolved.sparse_paths),
            depth: resolved.depth,
            lfs_jobs: args.lfs_jobs,
        }
    }

    /// How to save this state, given whether the repository's `.git` directory
    /// exists. Before the clone (and while it runs) the state goes next to the
    /// destination, and moves into the repository as soon as that exists; later
    /// phases write into the repository, which must exist by then.
    pub fn plan_save(&self, git_dir_exists: bool) -> (r: Result<SavePlan, FgcError>)
        ensures
            save_location(self.phase) == StateLocation::InRepo && !git_dir_exists ==> (
            r matches Err(e) && e@ == "Cannot save in-repo state before git clone completes"@),
            save_location(self.phase) == StateLocation::InRepo && git_dir_exists ==> r == Ok::<
                SavePlan,
                FgcError,
            >(SavePlan { write_to: StateLocation::InRepo, move_into_repo: false }),
            save_location(self.phase) == StateLocation::Sidecar ==> r == Ok::<SavePlan, FgcError>(
                SavePlan { write_to: StateLocation::Sidecar, move_into_repo: git_dir_exists },
            ),
    {
        if self.phase == ClonePhase::GitClone || self.phase == ClonePhase::NotStarted {
            Ok(SavePlan { write_to: StateLocation::Sidecar, move_into_repo: git_dir_exists })
        } else if !git_dir_exists {
            Err(FgcError::from_str("Cannot save in-repo state before git clone completes"))
        } else {
            Ok(SavePlan { write_to: StateLocation::InRepo, move_into_repo: false })
        }
    }
}

/// Whether a resumed clone skips `git clone`: it got past it.
pub open spec fn skips_git_clone(p: ClonePhase) -> bool {
    p == ClonePhase::SparseCheckout || p == ClonePhase::LfsPull || p == ClonePhase::Completed
}

/// Whether a resumed clone skips the sparse checkout.
pub open spec fn skips_sparse(p: ClonePhase) -> bool {
    p == ClonePhase::LfsPull || p == ClonePhase::Completed
}

/// Whether a resumed clone skips the LFS pull.
pub open spec fn skips_lfs(p: ClonePhase) -> bool {
    p == ClonePhase::Completed
}

/// Whether `git clone` is skipped because the saved phase is past it.
pub fn should_skip_git_clone(state: &CloneState) -> (b: bool)
    ensures
        b == skips_git_clone(state.phase),
{
    match state.phase {
        ClonePhase::SparseCheckout | ClonePhase::LfsPull | ClonePhase::Completed => true,
        _ => false,
    }
}

/// Whether the sparse checkout is skipped because the saved phase is past it.
pub fn should_skip_sparse(state: &CloneState) -> (b: bool)
    ensures
        b == skips_sparse(state.phase),
{
    match state.phase {
        ClonePhase::LfsPull | ClonePhase::Completed => true,
        _ => false,
    }
}

/// Whether the LFS pull is skipped because the saved phase is past it.
pub fn should_skip_lfs(state: &CloneState) -> (b: bool)
    ensures
        b == skips_lfs(state.phase),
{
    state.phase == ClonePhase::Completed
}

/// A resumed clone skips a later step only if it skips every earlier one.
pub proof fn law_skips_are_nested(p: ClonePhase)
    ensures
        skips_lfs(p) ==> skips_sparse(p),
        skips_sparse(p) ==> skips_git_clone(p),
        p == ClonePhase::NotStarted || p == ClonePhase::GitClone || p == ClonePhase::Failed
            ==> !skips_git_clone(p),
{
}

// ---------------------------------------------------------------------------
// Deciding whether to resume
// ---------------------------------------------------------------------------

/// What to do about a possibly interrupted earlier clone.
#[derive(Debug, Clone, Copy, PartialEq, Eq, Structural)]
pub enum ResumeDecision {
    /// Read the saved state, then decide with `resume_after_load`.
    LoadState,
    /// Start a new clone.
    StartFresh,
    /// Remove the saved state, then start a new clone.
    ClearStateAndStartFresh,
    /// Resume from the saved state (telling the user so when `announce`).
    Resume { announce: bool },
    /// Ask the user, then decide with `resume_after_answer`.
    Ask,
    /// Remove the destination directory and the saved state, then start a new clone.
    DiscardCloneAndStartFresh,
}

/// The first decision: with `--no-resume` the saved state is dropped, otherwise
/// it is read.
pub fn resume_first_step(args: &CloneArgs) -> (d: ResumeDecision)
    ensures
        d == (if args.no_resume {
            ResumeDecision::ClearStateAndStartFresh
        } else {
            ResumeDecision::LoadState
        }),
{
    if args.no_resume {
        ResumeDecision::ClearStateAndStartFresh
    } else {
        ResumeDecision::LoadState
    }
}

/// The decision once the saved state is read.
pub open spec fn after_load(url: Seq<char>, yes: bool, loaded: Option<(Seq<char>, ClonePhase)>) -> ResumeDecision {
    match loaded {
        None => ResumeDecision::StartFresh,
        Some((saved_url, phase)) => if saved_url != url {
            ResumeDecision::StartFresh
        } else if phase == ClonePhase::Completed {
            ResumeDecision::ClearStateAndStartFresh
        } else if yes {
            ResumeDecision::Resume { announce: true }
        } else {
            ResumeDecision::Ask
        },
    }
}

/// The saved state, by its URL and phase.
pub open spec fn url_and_phase(s: Option<&CloneState>) -> Option<(Seq<char>, ClonePhase)> {
    match s {
        Some(st) => Some((st.url@, st.phase)),
        None => None,
    }
}

/// Decides what to do once the saved state is read: no state, or one for another
/// URL, starts fresh; a completed one is dropped; otherwise resume, at once with
/// `--yes`, else after asking.
pub fn resume_after_load(args: &CloneArgs, loaded: Option<&CloneState>) -> (d: ResumeDecision)
    ensures
        d == after_load(args.url@, args.yes, url_and_phase(loaded)),
        // no saved state: a new clone
        loaded is None ==> d == ResumeDecision::StartFresh,
        // a saved state of another repository is ignored, whatever `--yes` says
        loaded matches Some(st) ==> (st.url@ != args.url@ ==> d == ResumeDecision::StartFresh),
        // the same repository: a completed clone's state is dropped; otherwise it
        // resumes at once with `--yes`, else after asking
        loaded matches Some(st) ==> (st.url@ == args.url@ && st.phase == ClonePhase::Completed
            ==> d == ResumeDecision::ClearStateAndStartFresh),
        loaded matches Some(st) ==> (st.url@ == args.url@ && st.phase != ClonePhase::Completed
            ==> d == (if args.yes {
            ResumeDecision::Resume { announce: true }
        } else {
            ResumeDecision::Ask
        })),
        // only a saved state of the same repository is ever resumed
        d is Resume || d is Ask ==> (loaded matches Some(st) && st.url@ == args.url@
            && st.phase != ClonePhase::Completed),
{
    match loaded {
        None => ResumeDecision::StartFresh,
        Some(state) => {
            if state.url != args.url {
                ResumeDecision::StartFresh
            } else if state.phase == ClonePhase::Completed {
                ResumeDecision::ClearStateAndStartFresh
            } else if args.yes {
                ResumeDecision::Resume { announce: true }
            } else {
                ResumeDecision::Ask
            }
        },
    }
}

/// A clone resumes (or asks to) only from a saved state of the repository asked
/// for that did not complete; a saved state of another URL always starts fresh,
/// with or without `--yes`.
pub proof fn law_only_same_url_resumes(
    url: Seq<char>,
    yes: bool,
    saved_url: Seq<char>,
    phase: ClonePhase,
)
    ensures
        saved_url != url ==> after_load(url, yes, Some((saved_url, phase)))
            == ResumeDecision::StartFresh,
        after_load(url, yes, None) == ResumeDecision::StartFresh,
        (after_load(url, yes, Some((saved_url, phase))) is Resume || after_load(
            url,
            yes,
            Some((saved_url, phase)),
        ) is Ask) ==> saved_url == url && phase != ClonePhase::Completed,
{
}

/// An answer to the resume question that means yes: `y` or `yes` in any ASCII case,
/// around white space.
pub open spec fn accepts_answer(answer: Seq<char>) -> bool {
    ascii_lower_seq(trim_ws(answer)) == ascii_lower_seq("y"@) || ascii_lower_seq(trim_ws(answer))
        == ascii_lower_seq("yes"@)
}

/// Decides after the user answered: yes resumes, anything else discards the
/// interrupted clone.
pub fn resume_after_answer(answer: &str) -> (d: ResumeDecision)
    ensures
        d == (if accepts_answer(answer@) {
            ResumeDecision::Resume { announce: false }
        } else {
            ResumeDecision::DiscardCloneAndStartFresh
        }),
{
    let t = trim(answer);
    if eq_ignore_ascii_case(t.as_str(), "y") || eq_ignore_ascii_case(t.as_str(), "yes") {
        ResumeDecision::Resume { announce: false }
    } else {
        ResumeDecision::DiscardCloneAndStartFresh
    }
}

} // verus!
