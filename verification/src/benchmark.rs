use vstd::prelude::*;
use crate::cli::{Strategy, strategy_name};
use crate::error::FgcError;
use crate::executor::{default_dest, default_dest_of, CloneRunOptions};
use crate::strategy::{ResolvedStrategy, StrategyReason};
use crate::text::{
    bytes_of, clone_opt_string, clone_strings, concat2, owned, split_at_byte, utf8_text,
};

verus! {

/// What a benchmark compares: each strategy (none of them `auto`) clones `url`.
#[derive(Debug)]
pub struct BenchmarkArgs {
    pub url: String,
    pub strategies: Vec<Strategy>,
    pub paths: Vec<String>,
    pub depth: u32,
    pub reference: Option<String>,
    pub keep: bool,
    pub work_dir: Option<String>,
}

/// How one strategy fared in a benchmark.
#[derive(Debug)]
pub struct BenchmarkResult {
    pub strategy: Strategy,
    /// How long the clone took, in nanoseconds (0 for a failed clone)
    pub duration_nanos: u128,
    /// The size of the clone on disk (0 for a failed clone)
    pub size_bytes: u64,
    pub success: bool,
    pub error: Option<String>,
}

/// The strategies of `s` other than `auto`, in order.
pub open spec fn concrete(s: Seq<Strategy>) -> Seq<Strategy>
    decreases s.len(),
{
    if s.len() == 0 {
        Seq::empty()
    } else if s.last() == Strategy::Auto {
        concrete(s.drop_last())
    } else {
        concrete(s.drop_last()).push(s.last())
    }
}

/// The benchmark for the `fgc benchmark` command line: its strategies without
/// `auto`, which must leave at least one.
pub fn prepare_benchmark(args: crate::cli::BenchmarkArgs) -> (r: Result<BenchmarkArgs, FgcError>)
    ensures
        concrete(args.strategies@).len() == 0 <==> r is Err,
        r matches Err(e) ==> e@ == "benchmark requires at least one concrete strategy (not auto)"@,
        r matches Ok(b) ==> b.strategies@ == concrete(args.strategies@) && b.url == args.url
            && b.paths == args.paths && b.depth == args.depth && b.reference == args.reference
            && b.keep == args.keep && b.work_dir == args.work_dir,
{
    let mut strategies: Vec<Strategy> = Vec::new();
    let mut i: usize = 0;
    while i < args.strategies.len()
        invariant
            i <= args.strategies@.len(),
            strategies@ == concrete(args.strategies@.take(i as int)),
        decreases args.strategies@.len() - i,
    {
        assert(args.strategies@.take(i + 1).drop_last() =~= args.strategies@.take(i as int));
        let s = args.strategies[i];
        if s != Strategy::Auto {
            strategies.push(s);
        }
        i += 1;
    }
    assert(args.strategies@.take(args.strategies@.len() as int) =~= args.strategies@);
    if strategies.len() == 0 {
        return Err(FgcError::from_str("benchmark requires at least one concrete strategy (not auto)"));
    }
    Ok(
        BenchmarkArgs {
            url: args.url,
            strategies,
            paths: args.paths,
            depth: args.depth,
            reference: args.reference,
            keep: args.keep,
            work_dir: args.work_dir,
        },
    )
}

/// Where a benchmark clones with `strategy`.
pub fn benchmark_dest(work_root: &str, base_name: &str, strategy: Strategy) -> (d: String)
    ensures
        d@ == work_root@ + "/fgc-bench-"@ + base_name@ + "-"@ + strategy_name(strategy),
{
    let mut d = owned(work_root);
    d.append("/fgc-bench-");
    d.append(base_name);
    d.append("-");
    d.append(strategy.as_str());
    d
}

/// The strategy a benchmark runs: as given, with the benchmark's paths and depth.
pub fn benchmark_resolved(args: &BenchmarkArgs, strategy: Strategy) -> (r: ResolvedStrategy)
    ensures
        r.strategy == strategy,
        r.reason == StrategyReason::Benchmark,
        r.sparse_paths@ == args.paths@,
        r.depth == args.depth,
{
    ResolvedStrategy {
        strategy,
        reason: StrategyReason::Benchmark,
        sparse_paths: clone_strings(&args.paths),
        depth: args.depth,
    }
}

/// How a benchmark clones: quietly, without fallback, with the benchmark's
/// reference repository.
pub fn benchmark_options(args: &BenchmarkArgs) -> (o: CloneRunOptions)
    ensures
        o.reference == args.reference,
        o.quiet,
        !o.enable_fallback,
{
    CloneRunOptions { reference: clone_opt_string(&args.reference), quiet: true, enable_fallback: false }
}

/// `i` is the first successful result with the shortest time.
pub open spec fn is_fastest(rs: Seq<BenchmarkResult>, i: int) -> bool {
    &&& 0 <= i < rs.len()
    &&& rs[i].success
    &&& forall|j: int| 0 <= j < rs.len() && rs[j].success ==> rs[i].duration_nanos <= rs[j].duration_nanos
    &&& forall|j: int| 0 <= j < i && rs[j].success ==> rs[i].duration_nanos < rs[j].duration_nanos
}

/// The first successful result with the shortest time, if any succeeded.
pub fn fastest(results: &Vec<BenchmarkResult>) -> (r: Option<usize>)
    ensures
        r is None <==> forall|j: int| 0 <= j < results@.len() ==> !results@[j].success,
        r matches Some(i) ==> is_fastest(results@, i as int),
{
    let mut best: Option<usize> = None;
    let mut i: usize = 0;
    while i < results.len()
        invariant
            i <= results@.len(),
            best is None <==> forall|j: int| 0 <= j < i ==> !results@[j].success,
            best matches Some(b) ==> b < i && is_fastest(results@.take(i as int), b as int),
        decreases results@.len() - i,
    {
        let r = &results[i];
        if r.success {
            match best {
                None => {
                    best = Some(i);
                },
                Some(b) => {
                    if r.duration_nanos < results[b].duration_nanos {
                        best = Some(i);
                    }
                },
            }
        }
        proof {
            let t = results@.take(i + 1);
            assert forall|j: int| 0 <= j < i + 1 implies t[j] == results@[j] by {}
            match best {
                Some(b) => {
                    assert(is_fastest(t, b as int));
                },
                None => {},
            }
        }
        i += 1;
    }
    proof {
        assert(results@.take(results@.len() as int) =~= results@);
    }
    best
}

/// An error shown in the benchmark table: at most its first 40 bytes, with `...`
/// after a cut.
pub open spec fn short_error_of(err: Seq<char>) -> Seq<char> {
    if bytes_of(err).len() > 40 {
        utf8_text(bytes_of(err).subrange(0, 40)) + "..."@
    } else {
        err
    }
}

/// An error as shown in the benchmark table.
pub fn short_error(err: &str) -> (s: String)
    requires
        bytes_of(err@).len() <= 40 || vstd::utf8::is_char_boundary(bytes_of(err@), 40),
        bytes_of(err@).len() <= usize::MAX,
    ensures
        s@ == short_error_of(err@),
{
    if err.len() > 40 {
        let (head, _) = split_at_byte(err, 40);
        concat2(head.as_str(), "...")
    } else {
        owned(err)
    }
}

} // verus!

verus! {

// ---------------------------------------------------------------------------
// Running a benchmark
// ---------------------------------------------------------------------------

/// What the caller reports to a benchmark run.
#[derive(Debug)]
pub enum BenchEvent {
    /// The clone directory was cleaned.
    Cleaned,
    /// The clone finished: its time in nanoseconds, or its error.
    Cloned(Result<u128, FgcError>),
    /// The clone's size on disk in bytes (0 when it cannot be measured).
    Measured(u64),
    /// The clone directory was removed.
    Removed,
}

/// What the caller does next in a benchmark run.
#[derive(Debug)]
pub enum BenchAction {
    /// Remove the directory if it exists (a failure to do so ends the benchmark
    /// with that error), then report `Cleaned`.
    Clean(String),
    /// Clone into `dest` with `resolved` and `options`, then report `Cloned`.
    Clone { resolved: ResolvedStrategy, dest: String, options: CloneRunOptions },
    /// Measure the directory, then report `Measured`.
    Measure(String),
    /// Remove the directory (ignoring a failure), then report `Removed`.
    Remove(String),
    /// The benchmark is over with these results, one per strategy, in order.
    Finish(Vec<BenchmarkResult>),
}

/// Where a benchmark run stands.
#[derive(Debug, Clone, Copy, PartialEq, Eq, Structural)]
pub enum BenchStage {
    Cleaning,
    Cloning,
    Measuring,
    Removing,
    Finished,
}

/// The event the stage waits for.
pub open spec fn event_fits(stage: BenchStage, ev: BenchEvent) -> bool {
    match stage {
        BenchStage::Cleaning => ev is Cleaned,
        BenchStage::Cloning => ev is Cloned,
        BenchStage::Measuring => ev is Measured,
        BenchStage::Removing => ev is Removed,
        BenchStage::Finished => false,
    }
}

/// A successful clone with strategy `s`: its time and size, and no error.
pub open spec fn success_result(r: BenchmarkResult, s: Strategy, nanos: u128, size: u64) -> bool {
    &&& r.strategy == s
    &&& r.duration_nanos == nanos
    &&& r.size_bytes == size
    &&& r.success
    &&& r.error is None
}

/// A failed clone with strategy `s`: no time, no size, and the error's text.
pub open spec fn failure_result(r: BenchmarkResult, s: Strategy, err: Seq<char>) -> bool {
    &&& r.strategy == s
    &&& r.duration_nanos == 0
    &&& r.size_bytes == 0
    &&& !r.success
    &&& r.error matches Some(t) && t@ == err
}

/// Result `i` belongs to strategy `i`; it failed exactly when it holds an error,
/// and a failure has no time and no size.
pub open spec fn result_fits(rs: Seq<BenchmarkResult>, ss: Seq<Strategy>, i: int) -> bool {
    &&& rs[i].strategy == ss[i]
    &&& (rs[i].success <==> rs[i].error is None)
    &&& (!rs[i].success ==> rs[i].duration_nanos == 0 && rs[i].size_bytes == 0)
}

/// The results so far are those of the first strategies, in order.
pub open spec fn results_prefix(rs: Seq<BenchmarkResult>, ss: Seq<Strategy>) -> bool {
    &&& rs.len() <= ss.len()
    &&& forall|i: int| 0 <= i < rs.len() ==> #[trigger] result_fits(rs, ss, i)
}

/// One result per strategy, in order.
pub open spec fn results_match(rs: Seq<BenchmarkResult>, ss: Seq<Strategy>) -> bool {
    rs.len() == ss.len() && results_prefix(rs, ss)
}

/// The benchmark run of `fgc benchmark`: for each strategy in turn, clean its
/// directory, clone, measure a successful clone, remove the directory unless it
/// is kept, and record one result.
pub struct BenchmarkRun {
    args: BenchmarkArgs,
    work_root: String,
    base_name: String,
    index: usize,
    nanos: u128,
    results: Vec<BenchmarkResult>,
    stage: BenchStage,
}

/// The event ends a strategy's clone with a result to record: a failed clone, or
/// the size of a successful one.
pub open spec fn records_result(ev: BenchEvent) -> bool {
    ev matches BenchEvent::Cloned(Err(_)) || ev is Measured
}

/// The results an action hands out, or else those the run holds.
pub open spec fn results_after(a: BenchAction, run: BenchmarkRun) -> Seq<BenchmarkResult> {
    match a {
        BenchAction::Finish(rs) => rs@,
        _ => run.results(),
    }
}

impl BenchmarkRun {
    /// The strategies compared.
    pub closed spec fn strategies(&self) -> Seq<Strategy> {
        self.args.strategies@
    }

    /// Whether clone directories are kept.
    pub closed spec fn keep(&self) -> bool {
        self.args.keep
    }

    /// The position of the strategy being run.
    pub closed spec fn index(&self) -> int {
        self.index as int
    }

    /// The results recorded so far.
    pub closed spec fn results(&self) -> Seq<BenchmarkResult> {
        self.results@
    }

    /// Where the run stands.
    pub closed spec fn stage(&self) -> BenchStage {
        self.stage
    }

    /// The time of the clone being measured.
    pub closed spec fn measured_nanos(&self) -> u128 {
        self.nanos
    }

    /// The benchmark's arguments other than its strategies.
    pub closed spec fn url(&self) -> Seq<char> {
        self.args.url@
    }

    pub closed spec fn paths(&self) -> Seq<String> {
        self.args.paths@
    }

    pub closed spec fn depth(&self) -> u32 {
        self.args.depth
    }

    pub closed spec fn reference(&self) -> Option<String> {
        self.args.reference
    }

    /// The directory of strategy `i`.
    pub closed spec fn dest_at(&self, i: int) -> Seq<char> {
        self.work_root@ + "/fgc-bench-"@ + self.base_name@ + "-"@ + strategy_name(
            self.args.strategies@[i],
        )
    }

    /// The run's invariant.
    pub closed spec fn wf(&self) -> bool {
        &&& results_prefix(self.results@, self.args.strategies@)
        &&& self.stage != BenchStage::Finished ==> self.index < self.args.strategies@.len()
        &&& (self.stage == BenchStage::Cleaning || self.stage == BenchStage::Cloning
            || self.stage == BenchStage::Measuring) ==> self.results@.len() == self.index
        &&& self.stage == BenchStage::Removing ==> self.results@.len() == self.index + 1
    }

    /// The action that clones strategy `i`.
    pub open spec fn clones_at(&self, a: BenchAction, i: int) -> bool {
        match a {
            BenchAction::Clone { resolved, dest, options } => {
                &&& resolved.strategy == self.strategies()[i]
                &&& resolved.reason == StrategyReason::Benchmark
                &&& resolved.sparse_paths@ == self.paths()
                &&& resolved.depth == self.depth()
                &&& dest@ == self.dest_at(i)
                &&& options.reference == self.reference()
                &&& options.quiet
                &&& !options.enable_fallback
            },
            _ => false,
        }
    }

    /// After strategy `old_index`'s result is recorded: clean the next directory,
    /// or finish with every result.
    pub open spec fn moves_on(&self, old_index: int, a: BenchAction) -> bool {
        if old_index + 1 < self.strategies().len() {
            &&& self.stage() == BenchStage::Cleaning
            &&& self.index() == old_index + 1
            &&& a matches BenchAction::Clean(d) && d@ == self.dest_at(old_index + 1)
        } else {
            &&& self.stage() == BenchStage::Finished
            &&& a is Finish
        }
    }

    /// Starts a benchmark of `args` with clone directories under `work_root`.
    pub fn start(args: BenchmarkArgs, work_root: &str) -> (res: (BenchmarkRun, BenchAction))
        ensures
            res.0.wf(),
            res.0.strategies() == args.strategies@,
            res.0.keep() == args.keep,
            res.0.url() == args.url@,
            res.0.paths() == args.paths@,
            res.0.depth() == args.depth,
            res.0.reference() == args.reference,
            forall|i: int|
                0 <= i < args.strategies@.len() ==> #[trigger] res.0.dest_at(i) == work_root@
                    + "/fgc-bench-"@ + default_dest_of(args.url@) + "-"@ + strategy_name(
                    args.strategies@[i],
                ),
            res.0.results() == Seq::<BenchmarkResult>::empty(),
            args.strategies@.len() == 0 ==> res.0.stage() == BenchStage::Finished && (
            res.1 matches BenchAction::Finish(rs) && rs@.len() == 0),
            args.strategies@.len() > 0 ==> res.0.stage() == BenchStage::Cleaning && res.0.index()
                == 0 && (res.1 matches BenchAction::Clean(d) && d@ == res.0.dest_at(0)),
            (res.1 is Finish) == (res.0.stage() == BenchStage::Finished),
    {
        let base_name = default_dest(args.url.as_str());
        let empty = args.strategies.len() == 0;
        let mut run = BenchmarkRun {
            args,
            work_root: owned(work_root),
            base_name,
            index: 0,
            nanos: 0,
            results: Vec::new(),
            stage: BenchStage::Cleaning,
        };
        if empty {
            run.stage = BenchStage::Finished;
            (run, BenchAction::Finish(Vec::new()))
        } else {
            let d = run.dest(0);
            (run, BenchAction::Clean(d))
        }
    }

    /// The directory of strategy `i`.
    fn dest(&self, i: usize) -> (d: String)
        requires
            i < self.args.strategies@.len(),
        ensures
            d@ == self.dest_at(i as int),
    {
        benchmark_dest(self.work_root.as_str(), self.base_name.as_str(), self.args.strategies[i])
    }

    /// Records that strategy `index` is done and moves on.
    fn advance(&mut self) -> (a: BenchAction)
        requires
            results_prefix(old(self).results@, old(self).args.strategies@),
            old(self).index < old(self).args.strategies@.len(),
            old(self).results@.len() == old(self).index + 1,
        ensures
            final(self).wf(),
            final(self).args == old(self).args,
            final(self).work_root == old(self).work_root,
            final(self).base_name == old(self).base_name,
            final(self).moves_on(old(self).index as int, a),
            final(self).stage != BenchStage::Finished ==> final(self).results@ == old(self).results@,
            a matches BenchAction::Finish(rs) ==> rs@ == old(self).results@ && results_match(
                rs@,
                old(self).args.strategies@,
            ),
    {
        if self.index < self.args.strategies.len() - 1 {
            self.index = self.index + 1;
            self.stage = BenchStage::Cleaning;
            let d = self.dest(self.index);
            BenchAction::Clean(d)
        } else {
            self.stage = BenchStage::Finished;
            let mut rs: Vec<BenchmarkResult> = Vec::new();
            std::mem::swap(&mut rs, &mut self.results);
            BenchAction::Finish(rs)
        }
    }

    /// After recording the result of strategy `index`: remove its directory
    /// unless directories are kept, else move on.
    fn after_result(&mut self) -> (a: BenchAction)
        requires
            results_prefix(old(self).results@, old(self).args.strategies@),
            old(self).index < old(self).args.strategies@.len(),
            old(self).results@.len() == old(self).index + 1,
        ensures
            final(self).wf(),
            final(self).args == old(self).args,
            final(self).work_root == old(self).work_root,
            final(self).base_name == old(self).base_name,
            !old(self).args.keep ==> final(self).stage == BenchStage::Removing && final(self).index
                == old(self).index && final(self).results@ == old(self).results@ && (
            a matches BenchAction::Remove(d) && d@ == old(self).dest_at(old(self).index as int)),
            old(self).args.keep ==> final(self).moves_on(old(self).index as int, a) && (
            final(self).stage != BenchStage::Finished ==> final(self).results@ == old(self).results@),
            old(self).args.keep ==> (a matches BenchAction::Finish(rs) ==> rs@ == old(self).results@),
            a matches BenchAction::Finish(rs) ==> results_match(rs@, old(self).args.strategies@),
    {
        if !self.args.keep {
            self.stage = BenchStage::Removing;
            let d = self.dest(self.index);
            BenchAction::Remove(d)
        } else {
            self.advance()
        }
    }

    /// Takes what the caller reports and says what to do next.
    ///
    /// A cleaned directory is cloned into; a successful clone is measured and
    /// recorded with its time and size, a failed one is recorded with no time, no
    /// size and its error; the directory is then removed unless directories are
    /// kept; then the next strategy starts, or the run finishes with one result
    /// per strategy.
    pub fn on_event(&mut self, ev: BenchEvent) -> (a: BenchAction)
        requires
            old(self).wf(),
            event_fits(old(self).stage(), ev),
        ensures
            final(self).wf(),
            final(self).strategies() == old(self).strategies(),
            final(self).keep() == old(self).keep(),
            final(self).url() == old(self).url(),
            final(self).paths() == old(self).paths(),
            final(self).depth() == old(self).depth(),
            final(self).reference() == old(self).reference(),
            forall|i: int| #[trigger] final(self).dest_at(i) == old(self).dest_at(i),
            (a is Finish) == (final(self).stage() == BenchStage::Finished),
            a matches BenchAction::Finish(rs) ==> results_match(rs@, old(self).strategies()),
            // clean, then clone
            old(self).stage() == BenchStage::Cleaning ==> final(self).stage()
                == BenchStage::Cloning && final(self).index() == old(self).index() && final(self).results() == old(self).results() && final(self).clones_at(a, old(self).index()),
            // a clone that worked is measured
            ev matches BenchEvent::Cloned(Ok(n)) ==> final(self).stage() == BenchStage::Measuring
                && final(self).measured_nanos() == n && final(self).index() == old(self).index()
                && final(self).results() == old(self).results() && (a matches BenchAction::Measure(
                d,
            ) && d@ == old(self).dest_at(old(self).index())),
            // a result is recorded: a failed clone at once, a measured one after measuring
            records_result(ev) ==> {
                let rs = results_after(a, *final(self));
                &&& rs.len() == old(self).results().len() + 1
                &&& rs.take(old(self).results().len() as int) == old(self).results()
                &&& match ev {
                    BenchEvent::Cloned(Err(e)) => failure_result(
                        rs.last(),
                        old(self).strategies()[old(self).index()],
                        e@,
                    ),
                    BenchEvent::Measured(size) => success_result(
                        rs.last(),
                        old(self).strategies()[old(self).index()],
                        old(self).measured_nanos(),
                        size,
                    ),
                    _ => false,
                }
                &&& if old(self).keep() {
                    final(self).moves_on(old(self).index(), a)
                } else {
                    &&& final(self).stage() == BenchStage::Removing
                    &&& final(self).index() == old(self).index()
                    &&& a matches BenchAction::Remove(d) && d@ == old(self).dest_at(old(self).index())
                }
            },
            // after removing, move on
            old(self).stage() == BenchStage::Removing ==> final(self).moves_on(old(self).index(), a)
                && results_after(a, *final(self)) == old(self).results(),
    {
        let i = self.index;
        match ev {
            BenchEvent::Cleaned => {
                self.stage = BenchStage::Cloning;
                let s = self.args.strategies[i];
                let resolved = benchmark_resolved(&self.args, s);
                let options = benchmark_options(&self.args);
                let dest = self.dest(i);
                BenchAction::Clone { resolved, dest, options }
            },
            BenchEvent::Cloned(Ok(n)) => {
                self.stage = BenchStage::Measuring;
                self.nanos = n;
                let d = self.dest(i);
                BenchAction::Measure(d)
            },
            BenchEvent::Cloned(Err(e)) => {
                let r = BenchmarkResult {
                    strategy: self.args.strategies[i],
                    duration_nanos: 0,
                    size_bytes: 0,
                    success: false,
                    error: Some(e.to_string()),
                };
                let ghost before = self.results@;
                self.results.push(r);
                proof {
                    assert(self.results@.take(before.len() as int) =~= before);
                    assert forall|k: int| 0 <= k < self.results@.len() implies #[trigger] result_fits(
                        self.results@,
                        self.args.strategies@,
                        k,
                    ) by {
                        if k < before.len() {
                            assert(result_fits(before, self.args.strategies@, k));
                        }
                    }
                }
                self.after_result()
            },
            BenchEvent::Measured(size) => {
                let r = BenchmarkResult {
                    strategy: self.args.strategies[i],
                    duration_nanos: self.nanos,
                    size_bytes: size,
                    success: true,
                    error: None,
                };
                let ghost before = self.results@;
                self.results.push(r);
                proof {
                    assert(self.results@.take(before.len() as int) =~= before);
                    assert forall|k: int| 0 <= k < self.results@.len() implies #[trigger] result_fits(
                        self.results@,
                        self.args.strategies@,
                        k,
                    ) by {
                        if k < before.len() {
                            assert(result_fits(before, self.args.strategies@, k));
                        }
                    }
                }
                self.after_result()
            },
            BenchEvent::Removed => self.advance(),
        }
    }
}

/// Every finished benchmark run gives one result per strategy, in order, and a
/// failed clone is recorded with no time and no size: what the run's `Finish`
/// hands out satisfies `results_match`, whose parts are stated here.
pub proof fn law_results_one_per_strategy(rs: Seq<BenchmarkResult>, ss: Seq<Strategy>)
    requires
        results_match(rs, ss),
    ensures
        rs.len() == ss.len(),
        forall|i: int| 0 <= i < rs.len() ==> #[trigger] rs[i].strategy == ss[i],
        forall|i: int| 0 <= i < rs.len() ==> (#[trigger] rs[i].success <==> rs[i].error is None),
        forall|i: int|
            0 <= i < rs.len() && !#[trigger] rs[i].success ==> rs[i].duration_nanos == 0
                && rs[i].size_bytes == 0,
{
    assert forall|i: int| 0 <= i < rs.len() implies #[trigger] rs[i].strategy == ss[i] by {
        assert(result_fits(rs, ss, i));
    }
    assert forall|i: int| 0 <= i < rs.len() implies (#[trigger] rs[i].success <==> rs[i].error is None) by {
        assert(result_fits(rs, ss, i));
    }
    assert forall|i: int| 0 <= i < rs.len() && !#[trigger] rs[i].success implies rs[i].duration_nanos == 0
        && rs[i].size_bytes == 0 by {
        assert(result_fits(rs, ss, i));
    }
}

} // verus!
