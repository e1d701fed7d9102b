use vstd::prelude::*;

verus! {

/// How a repository is cloned.
#[derive(Clone, Copy, Debug, PartialEq, Eq, Structural)]
pub enum Strategy {
    /// Automatically select the best strategy
    Auto,
    /// Partial clone without blobs (--filter=blob:none)
    Blobless,
    /// Sparse checkout with blobless filter
    Sparse,
    /// Shallow clone (--depth N)
    Shallow,
    /// Standard git clone
    Full,
}

/// Which tool downloads LFS objects.
#[derive(Clone, Copy, Debug, PartialEq, Eq, Structural)]
pub enum LfsBackend {
    /// Use aria2c if available, otherwise git lfs
    Auto,
    /// Force git lfs pull
    Git,
    /// Force aria2c multi-connection download
    Aria2c,
}

/// The name under which a strategy is shown and configured.
pub open spec fn strategy_name(s: Strategy) -> Seq<char> {
    match s {
        Strategy::Auto => "auto"@,
        Strategy::Blobless => "blobless"@,
        Strategy::Sparse => "sparse"@,
        Strategy::Shallow => "shallow"@,
        Strategy::Full => "full"@,
    }
}

/// The name under which an LFS backend is shown and configured.
pub open spec fn lfs_backend_name(b: LfsBackend) -> Seq<char> {
    match b {
        LfsBackend::Auto => "auto"@,
        LfsBackend::Git => "git"@,
        LfsBackend::Aria2c => "aria2c"@,
    }
}

impl Strategy {
    /// The strategy's name, as it is displayed.
    pub fn as_str(&self) -> (s: &'static str)
        ensures
            s@ == strategy_name(*self),
    {
        match self {
            Strategy::Auto => "auto",
            Strategy::Blobless => "blobless",
            Strategy::Sparse => "sparse",
            Strategy::Shallow => "shallow",
            Strategy::Full => "full",
        }
    }
}

impl LfsBackend {
    /// The backend's name, as it is displayed.
    pub fn as_str(&self) -> (s: &'static str)
        ensures
            s@ == lfs_backend_name(*self),
    {
        match self {
            LfsBackend::Auto => "auto",
            LfsBackend::Git => "git",
            LfsBackend::Aria2c => "aria2c",
        }
    }
}

/// Arguments of `fgc clone`.
#[derive(Debug)]
pub struct CloneArgs {
    /// Repository URL to clone
    pub url: String,
    /// Clone destination directory (defaults to repo name)
    pub dest: Option<String>,
    /// Clone strategy to use
    pub strategy: Strategy,
    /// Sparse checkout paths (used with sparse strategy)
    pub paths: Vec<String>,
    /// Shallow clone depth (used with shallow strategy)
    pub depth: u32,
    /// Number of parallel LFS download jobs
    pub lfs_jobs: u32,
    /// LFS download backend (auto tries aria2c first)
    pub lfs_backend: LfsBackend,
    /// aria2c connections per LFS file
    pub aria2c_connections: u32,
    /// Local reference repository for object reuse
    pub reference: Option<String>,
    /// Full-screen TUI dashboard for progress
    pub tui: bool,
    /// Skip resume prompt and start fresh
    pub no_resume: bool,
    /// Automatically confirm resume without prompting
    pub yes: bool,
}

/// Arguments of `fgc benchmark`.
#[derive(Debug)]
pub struct BenchmarkArgs {
    /// Repository URL to benchmark
    pub url: String,
    /// Strategies to compare
    pub strategies: Vec<Strategy>,
    /// Sparse checkout paths (for sparse strategy)
    pub paths: Vec<String>,
    /// Shallow clone depth
    pub depth: u32,
    /// Local reference repository for object reuse
    pub reference: Option<String>,
    /// Keep benchmark clone directories after test
    pub keep: bool,
    /// Working directory for benchmark clones
    pub work_dir: Option<String>,
}

/// A subcommand of the command line.
#[derive(Debug)]
pub enum Commands {
    /// Clone a repository with optimized strategy
    Clone(CloneArgs),
    /// Benchmark clone strategies for a repository
    Benchmark(BenchmarkArgs),
}

/// The parsed command line.
#[derive(Debug)]
pub struct Cli {
    pub command: Commands,
}

} // verus!

verus! {

/// The shallow clone depth when none is given.
pub const DEFAULT_DEPTH: u32 = 1;

/// The number of parallel LFS download jobs when none is given.
pub const DEFAULT_LFS_JOBS: u32 = 8;

/// The number of aria2c connections per LFS file when none is given.
pub const DEFAULT_ARIA2C_CONNECTIONS: u32 = 16;

} // verus!
