use vstd::prelude::*;
use crate::cli::{CloneArgs, Strategy, strategy_name};
use crate::github::RepoMetadata;
use crate::text::{clone_strings, concat2, owned};

verus! {

/// Above this size (in KiB, 2 GiB) a repository counts as large.
pub const LARGE_REPO_THRESHOLD_KB: u64 = 2 * 1024 * 1024;

/// Why a strategy was chosen.
#[derive(Debug, Clone, Copy, PartialEq, Eq, Structural)]
pub enum StrategyReason {
    /// The user named the strategy.
    UserSpecified(Strategy),
    /// `CI=true` is set.
    CiDetected,
    /// GitHub told nothing about the repository.
    NoMetadata,
    /// The repository is large and uses LFS.
    LargeWithLfs { size_kb: u64 },
    /// The repository uses LFS.
    LfsDetected,
    /// The repository is large.
    Large { size_kb: u64 },
    /// The repository is of moderate size.
    Moderate { size_kb: u64 },
    /// The server refused the strategy that was tried first.
    FallbackFrom(Strategy),
    /// A benchmark run tries the strategy.
    Benchmark,
}

/// A strategy together with the parameters it runs with.
#[derive(Debug)]
pub struct ResolvedStrategy {
    pub strategy: Strategy,
    pub reason: StrategyReason,
    pub sparse_paths: Vec<String>,
    pub depth: u32,
}

/// The metadata behind an optional reference.
pub open spec fn deref_meta(m: Option<&RepoMetadata>) -> Option<RepoMetadata> {
    match m {
        Some(x) => Some(*x),
        None => None,
    }
}

/// The strategy that automatic selection picks.
pub open spec fn auto_strategy(paths_given: bool, ci: bool, metadata: Option<RepoMetadata>) -> Strategy {
    if ci {
        Strategy::Shallow
    } else {
        match metadata {
            None => Strategy::Blobless,
            Some(m) => if (m.size_kb > LARGE_REPO_THRESHOLD_KB || m.has_lfs) && paths_given {
                Strategy::Sparse
            } else {
                Strategy::Blobless
            },
        }
    }
}

/// The reason automatic selection gives.
pub open spec fn auto_reason(ci: bool, metadata: Option<RepoMetadata>) -> StrategyReason {
    if ci {
        StrategyReason::CiDetected
    } else {
        match metadata {
            None => StrategyReason::NoMetadata,
            Some(m) => if m.size_kb > LARGE_REPO_THRESHOLD_KB || m.has_lfs {
                if m.has_lfs && m.size_kb > LARGE_REPO_THRESHOLD_KB {
                    StrategyReason::LargeWithLfs { size_kb: m.size_kb }
                } else if m.has_lfs {
                    StrategyReason::LfsDetected
                } else {
                    StrategyReason::Large { size_kb: m.size_kb }
                }
            } else {
                StrategyReason::Moderate { size_kb: m.size_kb }
            },
        }
    }
}

/// Picks a strategy when the user asked for `auto`: shallow in CI, otherwise
/// blobless, or sparse for a large or LFS repository when paths are given.
pub fn resolve_auto(args: &CloneArgs, ci: bool, metadata: Option<&RepoMetadata>) -> (r: ResolvedStrategy)
    ensures
        r.strategy == auto_strategy(args.paths@.len() > 0, ci, deref_meta(metadata)),
        r.reason == auto_reason(ci, deref_meta(metadata)),
        r.sparse_paths@ == args.paths@,
        r.depth == args.depth,
        // in CI: shallow
        ci ==> r.strategy == Strategy::Shallow && r.reason == StrategyReason::CiDetected,
        // without metadata: blobless
        !ci && metadata is None ==> r.strategy == Strategy::Blobless && r.reason
            == StrategyReason::NoMetadata,
        // a large or LFS repository: sparse exactly when paths are given
        metadata matches Some(m) ==> (!ci && (m.size_kb > LARGE_REPO_THRESHOLD_KB || m.has_lfs)
            ==> (r.strategy == Strategy::Sparse <==> args.paths@.len() > 0) && (r.strategy
            == Strategy::Sparse || r.strategy == Strategy::Blobless)),
        // a moderate repository: blobless, whatever the paths
        metadata matches Some(m) ==> (!ci && !(m.size_kb > LARGE_REPO_THRESHOLD_KB || m.has_lfs)
            ==> r.strategy == Strategy::Blobless && r.reason == (StrategyReason::Moderate {
            size_kb: m.size_kb,
        })),
        // the reason for a large or LFS repository names what was seen
        metadata matches Some(m) ==> (!ci && m.has_lfs && m.size_kb > LARGE_REPO_THRESHOLD_KB
            ==> r.reason == (StrategyReason::LargeWithLfs { size_kb: m.size_kb })),
        metadata matches Some(m) ==> (!ci && m.has_lfs && m.size_kb <= LARGE_REPO_THRESHOLD_KB
            ==> r.reason == StrategyReason::LfsDetected),
        metadata matches Some(m) ==> (!ci && !m.has_lfs && m.size_kb > LARGE_REPO_THRESHOLD_KB
            ==> r.reason == (StrategyReason::Large { size_kb: m.size_kb })),
{
    let paths = clone_strings(&args.paths);
    if ci {
        return ResolvedStrategy {
            strategy: Strategy::Shallow,
            reason: StrategyReason::CiDetected,
            sparse_paths: paths,
            depth: args.depth,
        };
    }
    let meta = match metadata {
        None => {
            return ResolvedStrategy {
                strategy: Strategy::Blobless,
                reason: StrategyReason::NoMetadata,
                sparse_paths: paths,
                depth: args.depth,
            };
        },
        Some(m) => m,
    };
    if meta.size_kb > LARGE_REPO_THRESHOLD_KB || meta.has_lfs {
        let strategy = if args.paths.len() > 0 {
            Strategy::Sparse
        } else {
            Strategy::Blobless
        };
        let reason = if meta.has_lfs && meta.size_kb > LARGE_REPO_THRESHOLD_KB {
            StrategyReason::LargeWithLfs { size_kb: meta.size_kb }
        } else if meta.has_lfs {
            StrategyReason::LfsDetected
        } else {
            StrategyReason::Large { size_kb: meta.size_kb }
        };
        return ResolvedStrategy { strategy, reason, sparse_paths: paths, depth: args.depth };
    }
    ResolvedStrategy {
        strategy: Strategy::Blobless,
        reason: StrategyReason::Moderate { size_kb: meta.size_kb },
        sparse_paths: paths,
        depth: args.depth,
    }
}

/// The strategy the user named, unless it is `auto` (which needs repository
/// metadata and `resolve_auto`).
pub fn analyze_specified(args: &CloneArgs) -> (r: Option<ResolvedStrategy>)
    ensures
        args.strategy == Strategy::Auto <==> r is None,
        r matches Some(rs) ==> rs.strategy == args.strategy && rs.reason
            == StrategyReason::UserSpecified(args.strategy) && rs.sparse_paths@ == args.paths@
            && rs.depth == args.depth,
{
    if args.strategy != Strategy::Auto {
        Some(
            ResolvedStrategy {
                strategy: args.strategy,
                reason: StrategyReason::UserSpecified(args.strategy),
                sparse_paths: clone_strings(&args.paths),
                depth: args.depth,
            },
        )
    } else {
        None
    }
}

/// The text of a reason, where it holds no size (a size is shown in GiB with one
/// decimal, which the caller formats).
pub open spec fn reason_text(r: StrategyReason) -> Option<Seq<char>> {
    match r {
        StrategyReason::UserSpecified(s) => Some("User specified --strategy "@ + strategy_name(s)),
        StrategyReason::CiDetected => Some("CI environment detected (CI=true)"@),
        StrategyReason::NoMetadata => Some("No GitHub metadata available; defaulting to blobless"@),
        StrategyReason::LfsDetected => Some("LFS usage detected on GitHub"@),
        StrategyReason::FallbackFrom(s) => Some("fallback from "@ + strategy_name(s)),
        StrategyReason::Benchmark => Some("benchmark"@),
        _ => None,
    }
}

impl StrategyReason {
    /// The reason as shown to the user, for the reasons that hold no size.
    pub fn text(&self) -> (t: Option<String>)
        ensures
            t matches Some(x) ==> reason_text(*self) == Some(x@),
            t is None ==> reason_text(*self) is None,
    {
        match *self {
            StrategyReason::UserSpecified(s) => Some(concat2("User specified --strategy ", s.as_str())),
            StrategyReason::CiDetected => Some(owned("CI environment detected (CI=true)")),
            StrategyReason::NoMetadata => Some(owned("No GitHub metadata available; defaulting to blobless")),
            StrategyReason::LfsDetected => Some(owned("LFS usage detected on GitHub")),
            StrategyReason::FallbackFrom(s) => Some(concat2("fallback from ", s.as_str())),
            StrategyReason::Benchmark => Some(owned("benchmark")),
            _ => None,
        }
    }
}

} // verus!

verus! {

/// Automatic selection always settles on a concrete partial or shallow strategy:
/// never `auto` itself, and never a full clone; in CI it is always shallow.
pub proof fn law_auto_strategy_is_concrete(paths_given: bool, ci: bool, metadata: Option<RepoMetadata>)
    ensures
        auto_strategy(paths_given, ci, metadata) != Strategy::Auto,
        auto_strategy(paths_given, ci, metadata) != Strategy::Full,
        ci ==> auto_strategy(paths_given, ci, metadata) == Strategy::Shallow,
        auto_strategy(paths_given, ci, metadata) == Strategy::Sparse ==> paths_given,
{
}

/// Outside CI, a repository that GitHub reports as larger than the threshold or
/// as using LFS is cloned sparse exactly when the user gave paths (else
/// blobless); any other known repository, and an unknown one, is cloned
/// blobless.
pub proof fn law_large_or_lfs_goes_sparse_with_paths(paths_given: bool, m: RepoMetadata)
    ensures
        (m.size_kb > LARGE_REPO_THRESHOLD_KB || m.has_lfs) ==> (auto_strategy(
            paths_given,
            false,
            Some(m),
        ) == Strategy::Sparse <==> paths_given),
        (m.size_kb > LARGE_REPO_THRESHOLD_KB || m.has_lfs) && !paths_given ==> auto_strategy(
            paths_given,
            false,
            Some(m),
        ) == Strategy::Blobless,
        !(m.size_kb > LARGE_REPO_THRESHOLD_KB || m.has_lfs) ==> auto_strategy(
            paths_given,
            false,
            Some(m),
        ) == Strategy::Blobless,
        auto_strategy(paths_given, false, None) == Strategy::Blobless,
{
}

} // verus!
