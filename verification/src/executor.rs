use vstd::prelude::*;
use crate::cli::{Strategy, strategy_name};
use crate::decimal::{decimal, decimal_string};
use crate::error::FgcError;
use crate::outside::{lowercase_of, to_lowercase, utf8_lossy, utf8_lossy_of};
use crate::strategy::{ResolvedStrategy, StrategyReason};
use crate::text::{
    after_last, after_last_char, clone_opt_string, clone_strings, concat2, concat3, contains_str,
    has_substring, owned, texts, trim_end_char, trim_end_matches_char, trim_end_matches_str,
    trim_end_str,
};

verus! {

/// How a clone is run.
///
/// The shared progress display that a caller may attach to a run lives with
/// the caller, which feeds it with `apply_git_line`.
#[derive(Debug)]
pub struct CloneRunOptions {
    /// Local reference repository for object reuse
    pub reference: Option<String>,
    /// Capture git's output instead of showing progress bars
    pub quiet: bool,
    /// Retry with simpler strategies when the server refuses a partial clone
    pub enable_fallback: bool,
}

/// The directory a clone of `url` goes to when none is given: the last path
/// component of the URL, without trailing slashes and `.git` suffixes.
pub open spec fn default_dest_of(url: Seq<char>) -> Seq<char> {
    trim_end_str(after_last(trim_end_char(url, '/'), '/'), ".git"@)
}

/// The directory a clone of `url` goes to when none is given.
pub fn default_dest(url: &str) -> (d: String)
    ensures
        d@ == default_dest_of(url@),
{
    let trimmed = trim_end_matches_char(url, '/');
    let last = after_last_char(trimmed.as_str(), '/');
    trim_end_matches_str(last.as_str(), ".git")
}

/// The arguments of `git` for cloning `url` into `dest`.
pub open spec fn clone_args_of(
    strategy: Strategy,
    depth: u32,
    url: Seq<char>,
    dest: Seq<char>,
    reference: Option<Seq<char>>,
) -> Seq<Seq<char>> {
    seq!["clone"@, "--progress"@] + match reference {
        Some(r) => seq!["--reference="@ + r, "--dissociate"@],
        None => Seq::empty(),
    } + match strategy {
        Strategy::Blobless => seq!["--filter=blob:none"@],
        Strategy::Sparse => seq!["--filter=blob:none"@, "--sparse"@],
        Strategy::Shallow => seq!["--depth="@ + decimal(depth as nat), "--single-branch"@],
        _ => Seq::empty(),
    } + seq![url, dest]
}

/// What a clone command holds, place by place: `clone --progress`; with a
/// reference repository `--reference=<it>` and `--dissociate`; then blobless
/// `--filter=blob:none`, sparse that and `--sparse`, shallow `--depth=<depth>` and
/// `--single-branch`, full or auto nothing; last the URL and the destination.
pub open spec fn clone_args_shape(
    a: Seq<Seq<char>>,
    strategy: Strategy,
    depth: u32,
    url: Seq<char>,
    dest: Seq<char>,
    reference: Option<Seq<char>>,
) -> bool {
    let r: int = if reference is Some {
        2
    } else {
        0
    };
    let extra: int = match strategy {
        Strategy::Blobless => 1,
        Strategy::Sparse => 2,
        Strategy::Shallow => 2,
        _ => 0,
    };
    &&& a.len() == 4 + r + extra
    &&& a[0] == "clone"@
    &&& a[1] == "--progress"@
    &&& (reference matches Some(x) ==> a[2] == "--reference="@ + x && a[3] == "--dissociate"@)
    &&& (strategy == Strategy::Blobless || strategy == Strategy::Sparse ==> a[2 + r]
        == "--filter=blob:none"@)
    &&& (strategy == Strategy::Sparse ==> a[3 + r] == "--sparse"@)
    &&& (strategy == Strategy::Shallow ==> a[2 + r] == "--depth="@ + decimal(depth as nat) && a[3
        + r] == "--single-branch"@)
    &&& a[a.len() - 2] == url
    &&& a[a.len() - 1] == dest
}

/// Every clone command has the shape `clone_args_shape` describes.
pub proof fn law_clone_args_by_strategy(
    strategy: Strategy,
    depth: u32,
    url: Seq<char>,
    dest: Seq<char>,
    reference: Option<Seq<char>>,
)
    ensures
        clone_args_shape(clone_args_of(strategy, depth, url, dest, reference), strategy, depth, url, dest, reference),
{
}

/// The text of an optional string.
pub open spec fn opt_view(o: Option<String>) -> Option<Seq<char>> {
    match o {
        Some(s) => Some(s@),
        None => None,
    }
}

/// The arguments of `git` for cloning `url` into `dest` with the given strategy.
pub fn build_clone_args(
    resolved: &ResolvedStrategy,
    url: &str,
    dest: &str,
    options: &CloneRunOptions,
) -> (args: Vec<String>)
    ensures
        texts(args@) == clone_args_of(
            resolved.strategy,
            resolved.depth,
            url@,
            dest@,
            opt_view(options.reference),
        ),
        // `clone --progress`, the reference options, the strategy's options, URL, destination
        clone_args_shape(
            texts(args@),
            resolved.strategy,
            resolved.depth,
            url@,
            dest@,
            opt_view(options.reference),
        ),
{
    proof {
        law_clone_args_by_strategy(
            resolved.strategy,
            resolved.depth,
            url@,
            dest@,
            opt_view(options.reference),
        );
    }
    let mut args: Vec<String> = Vec::new();
    args.push(owned("clone"));
    args.push(owned("--progress"));
    let ghost mut expected: Seq<Seq<char>> = seq!["clone"@, "--progress"@];
    assert(texts(args@) =~= expected);
    match &options.reference {
        Some(reference) => {
            args.push(concat2("--reference=", reference.as_str()));
            args.push(owned("--dissociate"));
            proof {
                expected = expected + seq!["--reference="@ + reference@, "--dissociate"@];
            }
        },
        None => {
            proof {
                expected = expected + Seq::empty();
            }
        },
    }
    assert(texts(args@) =~= expected);
    match resolved.strategy {
        Strategy::Blobless => {
            args.push(owned("--filter=blob:none"));
            proof {
                expected = expected + seq!["--filter=blob:none"@];
            }
        },
        Strategy::Sparse => {
            args.push(owned("--filter=blob:none"));
            args.push(owned("--sparse"));
            proof {
                expected = expected + seq!["--filter=blob:none"@, "--sparse"@];
            }
        },
        Strategy::Shallow => {
            let depth = decimal_string(resolved.depth as u64);
            args.push(concat2("--depth=", depth.as_str()));
            args.push(owned("--single-branch"));
            proof {
                expected = expected + seq!["--depth="@ + decimal(resolved.depth as nat), "--single-branch"@];
            }
        },
        _ => {
            proof {
                expected = expected + Seq::empty();
            }
        },
    }
    assert(texts(args@) =~= expected);
    args.push(owned(url));
    args.push(owned(dest));
    proof {
        expected = expected + seq![url@, dest@];
    }
    assert(texts(args@) =~= expected);
    args
}

// ---------------------------------------------------------------------------
// Failures of git clone
// ---------------------------------------------------------------------------

/// A lowercased error text that says the server refused a partial clone.
pub open spec fn partial_clone_text(lowered: Seq<char>) -> bool {
    ||| has_substring(lowered, "filter"@)
    ||| has_substring(lowered, "partial clone"@)
    ||| has_substring(lowered, "unknown option"@)
    ||| has_substring(lowered, "does not support"@)
}

/// An error message that says the server refused a partial clone.
pub open spec fn is_partial_clone_message(message: Seq<char>) -> bool {
    partial_clone_text(lowercase_of(message))
}

/// Whether a lowercased error text says the server refused a partial clone.
pub fn mentions_partial_clone(lowered: &str) -> (b: bool)
    ensures
        b == partial_clone_text(lowered@),
{
    contains_str(lowered, "filter") || contains_str(lowered, "partial clone") || contains_str(
        lowered,
        "unknown option",
    ) || contains_str(lowered, "does not support")
}

/// Whether an error says the server refused a partial clone.
pub fn is_partial_clone_error(err: &FgcError) -> (b: bool)
    ensures
        b == is_partial_clone_message(err@),
{
    let msg = err.to_string();
    let lowered = to_lowercase(msg.as_str());
    mentions_partial_clone(lowered.as_str())
}

/// The message for a failed clone, given git's error output and that output
/// lowercased.
pub open spec fn clone_failure_message(
    strategy: Strategy,
    stderr: Seq<char>,
    lowered: Seq<char>,
) -> Seq<char> {
    if (strategy == Strategy::Blobless || strategy == Strategy::Sparse) && (has_substring(
        lowered,
        "filter"@,
    ) || has_substring(stderr, "unknown option"@)) {
        "Server does not support partial clone ("@ + strategy_name(strategy)
            + "). Use --strategy shallow or --strategy full."@
    } else {
        "git clone failed:\n"@ + stderr
    }
}

/// The error for a failed clone, given git's error output and that output lowercased.
pub fn clone_failure(strategy: Strategy, stderr_text: &str, lowered: &str) -> (e: FgcError)
    ensures
        e@ == clone_failure_message(strategy, stderr_text@, lowered@),
{
    if (strategy == Strategy::Blobless || strategy == Strategy::Sparse) && (contains_str(
        lowered,
        "filter",
    ) || contains_str(stderr_text, "unknown option")) {
        FgcError::new(
            concat3(
                "Server does not support partial clone (",
                strategy.as_str(),
                "). Use --strategy shallow or --strategy full.",
            ),
        )
    } else {
        FgcError::new(concat2("git clone failed:\n", stderr_text))
    }
}

/// The error for a failed clone, given git's error output.
pub fn clone_error_from_stderr(resolved: &ResolvedStrategy, stderr_text: &str) -> (e: FgcError)
    ensures
        e@ == clone_failure_message(resolved.strategy, stderr_text@, lowercase_of(stderr_text@)),
{
    let lowered = to_lowercase(stderr_text);
    clone_failure(resolved.strategy, stderr_text, lowered.as_str())
}

/// The error for a failed clone, given git's error output as bytes.
pub fn clone_error(resolved: &ResolvedStrategy, stderr: &[u8]) -> (e: FgcError)
    ensures
        e@ == clone_failure_message(
            resolved.strategy,
            utf8_lossy_of(stderr@),
            lowercase_of(utf8_lossy_of(stderr@)),
        ),
{
    let text = utf8_lossy(stderr);
    clone_error_from_stderr(resolved, text.as_str())
}

} // verus!

verus! {

// ---------------------------------------------------------------------------
// Falling back to simpler strategies
// ---------------------------------------------------------------------------

/// The strategies tried, in order, when the server refuses `s`.
pub open spec fn fallback_chain(s: Strategy) -> Seq<Strategy> {
    match s {
        Strategy::Blobless | Strategy::Sparse => seq![Strategy::Shallow, Strategy::Full],
        Strategy::Shallow => seq![Strategy::Full],
        _ => Seq::empty(),
    }
}

/// The strategies tried, in order, when the server refuses `s`.
pub fn fallback_strategies(s: Strategy) -> (v: Vec<Strategy>)
    ensures
        v@ == fallback_chain(s),
{
    let mut v: Vec<Strategy> = Vec::new();
    match s {
        Strategy::Blobless | Strategy::Sparse => {
            v.push(Strategy::Shallow);
            v.push(Strategy::Full);
        },
        Strategy::Shallow => {
            v.push(Strategy::Full);
        },
        _ => {},
    }
    assert(v@ =~= fallback_chain(s));
    v
}

/// Where a clone with fallback stands.
pub enum AttemptStage {
    /// The first attempt, with the strategy as resolved, is running.
    First,
    /// The first attempt failed as a refused partial clone; the destination is being
    /// cleaned up.
    Cleaning { first_error: FgcError },
    /// The fallback at `index` in the chain is running.
    Fallback { index: usize, first_error: FgcError },
    /// The outcome is known.
    Finished,
}

/// What the caller does next for a clone with fallback.
pub enum AttemptAction {
    /// Run one clone attempt with this strategy (announcing that it falls back
    /// from a refused strategy, when one is given), then report its outcome.
    Attempt { resolved: ResolvedStrategy, fallback_from: Option<Strategy> },
    /// Remove what the failed attempt left at the destination, then report.
    Cleanup,
    /// The clone is over: `Ok` means the last attempt succeeded.
    Finish(Result<(), FgcError>),
}

/// A clone run that falls back to simpler strategies when the server refuses a
/// partial clone (what `run_clone_timed` decides between attempts).
pub struct CloneAttempts {
    strategy: Strategy,
    sparse_paths: Vec<String>,
    depth: u32,
    enable_fallback: bool,
    chain: Vec<Strategy>,
    stage: AttemptStage,
}

/// An optional error, by its message.
pub open spec fn err_view(r: Result<(), FgcError>) -> Result<(), Seq<char>> {
    match r {
        Ok(()) => Ok(()),
        Err(e) => Err(e@),
    }
}

/// The action finishes with success.
pub open spec fn finishes_ok(a: AttemptAction) -> bool {
    a matches AttemptAction::Finish(Ok(()))
}

/// The action finishes with an error whose message is `m`.
pub open spec fn finishes_with_error(a: AttemptAction, m: Seq<char>) -> bool {
    match a {
        AttemptAction::Finish(Err(f)) => f@ == m,
        _ => false,
    }
}

/// The action runs an attempt with strategy `s`, announced as a fallback from `from`.
pub open spec fn attempts(a: AttemptAction, s: Strategy, from: Option<Strategy>) -> bool {
    match a {
        AttemptAction::Attempt { resolved, fallback_from } => resolved.strategy == s
            && fallback_from == from && (from matches Some(o) ==> resolved.reason
            == StrategyReason::FallbackFrom(o)),
        _ => false,
    }
}

/// An attempt the action runs uses these paths and this depth.
pub open spec fn action_carries_run(a: AttemptAction, paths: Seq<String>, depth: u32) -> bool {
    match a {
        AttemptAction::Attempt { resolved, .. } => resolved.sparse_paths@ == paths
            && resolved.depth == depth,
        _ => true,
    }
}

impl CloneAttempts {
    /// The strategy that was resolved for the clone.
    pub closed spec fn first_strategy(&self) -> Strategy {
        self.strategy
    }

    /// Whether fallback is allowed.
    pub closed spec fn fallback_enabled(&self) -> bool {
        self.enable_fallback
    }

    /// The index in the fallback chain of the attempt that runs now (`-1` for the
    /// first attempt, and for a run that is cleaning up or finished the value says
    /// nothing).
    pub closed spec fn position(&self) -> int {
        match self.stage {
            AttemptStage::Fallback { index, .. } => index as int,
            _ => -1,
        }
    }

    /// Whether the first attempt is running.
    pub closed spec fn at_first(&self) -> bool {
        self.stage is First
    }

    /// Whether the destination is being cleaned up.
    pub closed spec fn cleaning(&self) -> bool {
        self.stage is Cleaning
    }

    /// Whether the run is over.
    pub closed spec fn finished(&self) -> bool {
        self.stage is Finished
    }

    /// The error of the first attempt, once fallback has begun.
    pub closed spec fn first_error(&self) -> Seq<char> {
        match self.stage {
            AttemptStage::Cleaning { first_error } => first_error@,
            AttemptStage::Fallback { first_error, .. } => first_error@,
            _ => Seq::empty(),
        }
    }

    /// The sparse paths every attempt uses.
    pub closed spec fn paths(&self) -> Seq<String> {
        self.sparse_paths@
    }

    /// The depth every attempt uses.
    pub closed spec fn clone_depth(&self) -> u32 {
        self.depth
    }

    /// The run's invariant.
    pub closed spec fn wf(&self) -> bool {
        &&& self.chain@ == fallback_chain(self.strategy)
        &&& match self.stage {
            AttemptStage::Fallback { index, .. } => index < self.chain@.len(),
            _ => true,
        }
    }

    /// A run is in exactly one stage: its first attempt, the cleanup, a fallback
    /// attempt at a position of the chain, or finished.
    pub proof fn law_one_stage(&self)
        requires
            self.wf(),
        ensures
            self.at_first() ==> !self.cleaning() && self.position() < 0 && !self.finished(),
            self.cleaning() ==> self.position() < 0 && !self.finished(),
            self.position() >= 0 ==> !self.finished() && self.position() < fallback_chain(
                self.first_strategy(),
            ).len(),
            self.at_first() || self.cleaning() || self.position() >= 0 || self.finished(),
    {
    }

    /// The resolved strategy for a fallback attempt with `s`.
    fn fallback_to(&self, s: Strategy) -> (r: ResolvedStrategy)
        ensures
            r.strategy == s,
            r.sparse_paths@ == self.sparse_paths@,
            r.depth == self.depth,
            r.reason == StrategyReason::FallbackFrom(self.strategy),
    {
        ResolvedStrategy {
            strategy: s,
            reason: StrategyReason::FallbackFrom(self.strategy),
            sparse_paths: clone_strings(&self.sparse_paths),
            depth: self.depth,
        }
    }

    /// Starts a clone run for `resolved`; the first action runs it as resolved.
    pub fn start(resolved: &ResolvedStrategy, enable_fallback: bool) -> (res: (
        CloneAttempts,
        AttemptAction,
    ))
        ensures
            res.0.wf(),
            res.0.at_first(),
            !res.0.finished(),
            res.0.first_strategy() == resolved.strategy,
            res.0.fallback_enabled() == enable_fallback,
            res.0.paths() == resolved.sparse_paths@,
            res.0.clone_depth() == resolved.depth,
            attempts(res.1, resolved.strategy, None),
            action_carries_run(res.1, resolved.sparse_paths@, resolved.depth),
            res.1 matches AttemptAction::Attempt { resolved: r, .. } ==> r.reason == resolved.reason,
    {
        let run = CloneAttempts {
            strategy: resolved.strategy,
            sparse_paths: clone_strings(&resolved.sparse_paths),
            depth: resolved.depth,
            enable_fallback,
            chain: fallback_strategies(resolved.strategy),
            stage: AttemptStage::First,
        };
        let first = ResolvedStrategy {
            strategy: resolved.strategy,
            reason: resolved.reason,
            sparse_paths: clone_strings(&resolved.sparse_paths),
            depth: resolved.depth,
        };
        (run, AttemptAction::Attempt { resolved: first, fallback_from: None })
    }

    /// Takes the outcome of the last action and says what to do next.
    ///
    /// After the first attempt: success finishes; an error finishes unless fallback is
    /// enabled and the error is a refused partial clone, in which case the destination
    /// is cleaned up. After the cleanup the chain of fallbacks is tried in order, each
    /// with the same paths and depth; a fallback attempt that fails as a refused
    /// partial clone, or that was the shallow one, moves on to the next fallback,
    /// another failure finishes with that failure, and running out of fallbacks
    /// finishes with the first attempt's error.
    pub fn on_outcome(&mut self, outcome: Result<(), FgcError>) -> (action: AttemptAction)
        requires
            old(self).wf(),
            !old(self).finished(),
        ensures
            final(self).wf(),
            final(self).first_strategy() == old(self).first_strategy(),
            final(self).fallback_enabled() == old(self).fallback_enabled(),
            final(self).paths() == old(self).paths(),
            final(self).clone_depth() == old(self).clone_depth(),
            (action is Finish) == final(self).finished(),
            action_carries_run(action, old(self).paths(), old(self).clone_depth()),
            // after the first attempt
            old(self).at_first() ==> match outcome {
                Ok(()) => final(self).finished() && finishes_ok(action),
                Err(e) => if old(self).fallback_enabled() && is_partial_clone_message(e@) {
                    final(self).cleaning() && !final(self).finished() && final(self).first_error() == e@
                        && action is Cleanup
                } else {
                    final(self).finished() && finishes_with_error(action, e@)
                },
            },
            // after the cleanup
            old(self).cleaning() ==> if fallback_chain(old(self).first_strategy()).len() > 0 {
                &&& final(self).position() == 0
                &&& !final(self).finished()
                &&& final(self).first_error() == old(self).first_error()
                &&& attempts(
                    action,
                    fallback_chain(old(self).first_strategy())[0],
                    Some(old(self).first_strategy()),
                )
            } else {
                final(self).finished() && finishes_with_error(action, old(self).first_error())
            },
            // after a fallback attempt
            old(self).position() >= 0 ==> {
                let i = old(self).position();
                let tried = fallback_chain(old(self).first_strategy())[i];
                match outcome {
                    Ok(()) => final(self).finished() && finishes_ok(action),
                    Err(e) => if is_partial_clone_message(e@) || tried == Strategy::Shallow {
                        if i + 1 < fallback_chain(old(self).first_strategy()).len() {
                            &&& final(self).position() == i + 1
                            &&& !final(self).finished()
                            &&& final(self).first_error() == old(self).first_error()
                            &&& attempts(
                                action,
                                fallback_chain(old(self).first_strategy())[i + 1],
                                Some(old(self).first_strategy()),
                            )
                        } else {
                            final(self).finished() && finishes_with_error(
                                action,
                                old(self).first_error(),
                            )
                        }
                    } else {
                        final(self).finished() && finishes_with_error(action, e@)
                    },
                }
            },
    {
        let mut stage = AttemptStage::Finished;
        std::mem::swap(&mut stage, &mut self.stage);
        match stage {
            AttemptStage::First => match outcome {
                Ok(()) => AttemptAction::Finish(Ok(())),
                Err(e) => {
                    if self.enable_fallback && is_partial_clone_error(&e) {
                        self.stage = AttemptStage::Cleaning { first_error: e };
                        AttemptAction::Cleanup
                    } else {
                        AttemptAction::Finish(Err(e))
                    }
                },
            },
            AttemptStage::Cleaning { first_error } => {
                if self.chain.len() > 0 {
                    let next = self.chain[0];
                    self.stage = AttemptStage::Fallback { index: 0, first_error };
                    let r = self.fallback_to(next);
                    AttemptAction::Attempt { resolved: r, fallback_from: Some(self.strategy) }
                } else {
                    AttemptAction::Finish(Err(first_error))
                }
            },
            AttemptStage::Fallback { index, first_error } => match outcome {
                Ok(()) => AttemptAction::Finish(Ok(())),
                Err(e) => {
                    let tried = self.chain[index];
                    if is_partial_clone_error(&e) || tried == Strategy::Shallow {
                        if index + 1 < self.chain.len() {
                            let next = self.chain[index + 1];
                            self.stage = AttemptStage::Fallback { index: index + 1, first_error };
                            let r = self.fallback_to(next);
                            AttemptAction::Attempt {
                                resolved: r,
                                fallback_from: Some(self.strategy),
                            }
                        } else {
                            AttemptAction::Finish(Err(first_error))
                        }
                    } else {
                        AttemptAction::Finish(Err(e))
                    }
                },
            },
            AttemptStage::Finished => AttemptAction::Finish(Ok(())),
        }
    }
}

/// Falling back from a strategy tries strategies that are neither that strategy
/// nor `auto`, each once, and falling back from the fallback at position `i` would
/// try exactly the fallbacks after it: the chain only ever moves on to simpler
/// strategies, so a clone makes at most three attempts.
pub proof fn law_fallback_chain_shrinks(s: Strategy)
    ensures
        fallback_chain(s).len() <= 2,
        !fallback_chain(s).contains(s),
        !fallback_chain(s).contains(Strategy::Auto),
        forall|i: int, j: int|
            0 <= i < j < fallback_chain(s).len() ==> fallback_chain(s)[i] != fallback_chain(s)[j],
        forall|i: int|
            0 <= i < fallback_chain(s).len() ==> fallback_chain(#[trigger] fallback_chain(s)[i])
                == fallback_chain(s).skip(i + 1),
{
    assert(fallback_chain(s).len() <= 2);
    if fallback_chain(s).len() == 2 {
        assert(fallback_chain(Strategy::Shallow) =~= fallback_chain(s).skip(1));
        assert(fallback_chain(Strategy::Full) =~= fallback_chain(s).skip(2));
    } else if fallback_chain(s).len() == 1 {
        assert(fallback_chain(Strategy::Full) =~= fallback_chain(s).skip(1));
    }
}

} // verus!

verus! {

/// The `git` commands that apply sparse checkout paths in a clone: none without
/// paths, else `sparse-checkout init --cone` and then `sparse-checkout set` with
/// the paths.
pub fn sparse_checkout_commands(paths: &Vec<String>) -> (cmds: Vec<Vec<String>>)
    ensures
        paths@.len() == 0 ==> cmds@.len() == 0,
        paths@.len() > 0 ==> cmds@.len() == 2 && texts(cmds@[0]@) == seq![
            "sparse-checkout"@,
            "init"@,
            "--cone"@,
        ] && texts(cmds@[1]@) == seq!["sparse-checkout"@, "set"@] + texts(paths@),
{
    let mut cmds: Vec<Vec<String>> = Vec::new();
    if paths.len() == 0 {
        return cmds;
    }
    let mut init: Vec<String> = Vec::new();
    init.push(owned("sparse-checkout"));
    init.push(owned("init"));
    init.push(owned("--cone"));
    assert(texts(init@) =~= seq!["sparse-checkout"@, "init"@, "--cone"@]);
    let mut set: Vec<String> = Vec::new();
    set.push(owned("sparse-checkout"));
    set.push(owned("set"));
    let mut i: usize = 0;
    while i < paths.len()
        invariant
            i <= paths@.len(),
            texts(set@) == seq!["sparse-checkout"@, "set"@] + texts(paths@.take(i as int)),
        decreases paths@.len() - i,
    {
        let ghost before = texts(set@);
        set.push(paths[i].clone());
        assert(texts(set@) =~= before.push(paths@[i as int]@));
        assert(texts(paths@.take(i + 1)) =~= texts(paths@.take(i as int)).push(paths@[i as int]@));
        i += 1;
    }
    assert(paths@.take(paths@.len() as int) =~= paths@);
    cmds.push(init);
    cmds.push(set);
    cmds
}

/// The sparse checkout of `paths` in the clone at `dest`, given whether `dest`
/// exists: nothing to run without paths, an error for a missing destination,
/// otherwise the commands of `sparse_checkout_commands`.
pub fn sparse_checkout_plan(dest: &str, paths: &Vec<String>, dest_exists: bool) -> (r: Result<
    Vec<Vec<String>>,
    FgcError,
>)
    ensures
        paths@.len() == 0 ==> (r matches Ok(c) && c@.len() == 0),
        paths@.len() > 0 && !dest_exists ==> (r matches Err(e) && e@ == "Destination not found: "@
            + dest@),
        paths@.len() > 0 && dest_exists ==> (r matches Ok(c) && c@.len() == 2 && texts(c@[0]@)
            == seq!["sparse-checkout"@, "init"@, "--cone"@] && texts(c@[1]@) == seq![
            "sparse-checkout"@,
            "set"@,
        ] + texts(paths@)),
{
    if paths.len() == 0 {
        return Ok(Vec::new());
    }
    if !dest_exists {
        return Err(FgcError::new(concat2("Destination not found: ", dest)));
    }
    Ok(sparse_checkout_commands(paths))
}

/// The error for a failed sparse checkout command (`init` for the first, `set`
/// for the second), given its error output.
pub fn sparse_checkout_failure(step: usize, stderr: &[u8]) -> (e: FgcError)
    ensures
        e@ == (if step == 0 {
            "sparse-checkout init failed: "@
        } else {
            "sparse-checkout set failed: "@
        }) + utf8_lossy_of(stderr@),
{
    let text = utf8_lossy(stderr);
    if step == 0 {
        FgcError::new(concat2("sparse-checkout init failed: ", text.as_str()))
    } else {
        FgcError::new(concat2("sparse-checkout set failed: ", text.as_str()))
    }
}

} // verus!

verus! {

proof fn lemma_after_last_no_char(s: Seq<char>, c: char)
    ensures
        !crate::text::has_char(after_last(s, c), c),
        after_last(s, c).len() <= s.len(),
    decreases s.len(),
{
    if s.len() > 0 && s.last() != c {
        lemma_after_last_no_char(s.drop_last(), c);
        let t = after_last(s.drop_last(), c);
        assert forall|i: int| 0 <= i < t.push(s.last()).len() implies t.push(s.last())[i] != c by {
            if i < t.len() {
                assert(t.push(s.last())[i] == t[i]);
            }
        }
    }
}

proof fn lemma_trim_end_str_prefix(s: Seq<char>, p: Seq<char>)
    ensures
        trim_end_str(s, p).len() <= s.len(),
        trim_end_str(s, p) == s.take(trim_end_str(s, p).len() as int),
    decreases s.len(),
{
    if p.len() > 0 && crate::text::has_suffix(s, p) {
        let t = s.subrange(0, s.len() - p.len());
        lemma_trim_end_str_prefix(t, p);
        assert(t.take(trim_end_str(t, p).len() as int) =~= s.take(trim_end_str(t, p).len() as int));
    } else {
        assert(s.take(s.len() as int) =~= s);
    }
}

/// The directory a clone goes to by default is a single path component: it holds
/// no `/`.
pub proof fn law_default_dest_is_one_component(url: Seq<char>)
    ensures
        !crate::text::has_char(default_dest_of(url), '/'),
{
    let last = after_last(trim_end_char(url, '/'), '/');
    lemma_after_last_no_char(trim_end_char(url, '/'), '/');
    lemma_trim_end_str_prefix(last, ".git"@);
    let d = default_dest_of(url);
    assert forall|i: int| 0 <= i < d.len() implies d[i] != '/' by {
        assert(d[i] == last.take(d.len() as int)[i]);
        assert(last[i] != '/');
    }
}

proof fn lemma_after_last_tail(p: Seq<char>, w: Seq<char>, c: char)
    requires
        !crate::text::has_char(w, c),
    ensures
        after_last(p.push(c) + w, c) == w,
    decreases w.len(),
{
    if w.len() == 0 {
        assert(p.push(c) + w =~= p.push(c));
        assert(after_last(p.push(c), c) =~= Seq::<char>::empty());
    } else {
        let front = w.drop_last();
        assert forall|i: int| 0 <= i < front.len() implies front[i] != c by {
            assert(front[i] == w[i]);
        }
        lemma_after_last_tail(p, front, c);
        assert((p.push(c) + w).drop_last() =~= p.push(c) + front);
        assert(w[w.len() - 1] != c);
        assert(front.push(w.last()) =~= w);
    }
}

/// The directory a clone goes to by default is the repository's name: the last
/// component of the URL, without `.git`.
pub proof fn law_default_dest_is_repo_name(prefix: Seq<char>, name: Seq<char>)
    requires
        name.len() > 0,
        !crate::text::has_char(name, '/'),
        !crate::text::has_suffix(name, ".git"@),
    ensures
        default_dest_of(prefix + "/"@ + name + ".git"@) == name,
        default_dest_of(prefix + "/"@ + name) == name,
{
    reveal_strlit("/");
    reveal_strlit(".git");
    let g = ".git"@;
    // with `.git`
    let u = prefix + "/"@ + name + g;
    let w = name + g;
    assert(u =~= prefix.push('/') + w);
    assert(!crate::text::has_char(w, '/')) by {
        assert forall|i: int| 0 <= i < w.len() implies w[i] != '/' by {
            if i < name.len() {
                assert(w[i] == name[i]);
            } else {
                assert(w[i] == g[i - name.len()]);
            }
        }
    }
    assert(u.len() > 0 && u.last() == 't');
    assert(trim_end_char(u, '/') == u);
    lemma_after_last_tail(prefix, w, '/');
    assert(crate::text::has_suffix(w, g));
    assert(w.subrange(0, w.len() - g.len()) =~= name);
    assert(trim_end_str(name, g) == name);
    // without `.git`
    let v = prefix + "/"@ + name;
    assert(v =~= prefix.push('/') + name);
    assert(v.last() == name.last());
    assert(name[name.len() - 1] != '/');
    assert(trim_end_char(v, '/') == v);
    lemma_after_last_tail(prefix, name, '/');
}

/// Every clone command starts with `clone --progress` and ends with the URL and
/// the destination.
pub proof fn law_clone_args_frame(
    strategy: Strategy,
    depth: u32,
    url: Seq<char>,
    dest: Seq<char>,
    reference: Option<Seq<char>>,
)
    ensures
        clone_args_of(strategy, depth, url, dest, reference).len() >= 4,
        clone_args_of(strategy, depth, url, dest, reference)[0] == "clone"@,
        clone_args_of(strategy, depth, url, dest, reference)[1] == "--progress"@,
        clone_args_of(strategy, depth, url, dest, reference).last() == dest,
        clone_args_of(strategy, depth, url, dest, reference)[clone_args_of(
            strategy,
            depth,
            url,
            dest,
            reference,
        ).len() - 2] == url,
{
}

} // verus!
