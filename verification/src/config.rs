use vstd::prelude::*;
use vstd::utf8::is_ascii_chars;
use crate::cli::{
    BenchmarkArgs, CloneArgs, LfsBackend, Strategy, lfs_backend_name, strategy_name,
    DEFAULT_ARIA2C_CONNECTIONS, DEFAULT_DEPTH, DEFAULT_LFS_JOBS,
};
use crate::error::FgcError;
use crate::outside::{lowercase_of, path_join, path_join_of, to_lowercase};
use crate::text::{concat3, has_prefix, owned, same_text, strip_prefix};
use crate::words::ascii_lower_seq;

verus! {

/// The settings of `~/.config/fgc/config.toml`; each one left out keeps the
/// command line's value.
#[derive(Debug)]
pub struct Config {
    pub default_strategy: Option<String>,
    pub lfs_jobs: Option<u32>,
    pub depth: Option<u32>,
    pub reference: Option<String>,
    pub tui: Option<bool>,
    pub lfs_backend: Option<String>,
    pub aria2c_connections: Option<u32>,
}

/// The configuration sets nothing.
pub open spec fn is_empty_config(c: Config) -> bool {
    &&& c.default_strategy is None
    &&& c.lfs_jobs is None
    &&& c.depth is None
    &&& c.reference is None
    &&& c.tui is None
    &&& c.lfs_backend is None
    &&& c.aria2c_connections is None
}

impl Default for Config {
    fn default() -> (c: Config)
        ensures
            is_empty_config(c),
    {
        Config {
            default_strategy: None,
            lfs_jobs: None,
            depth: None,
            reference: None,
            tui: None,
            lfs_backend: None,
            aria2c_connections: None,
        }
    }
}

/// The strategy with this (lowercase) name.
pub open spec fn strategy_from_name(n: Seq<char>) -> Option<Strategy> {
    if n == "auto"@ {
        Some(Strategy::Auto)
    } else if n == "blobless"@ {
        Some(Strategy::Blobless)
    } else if n == "sparse"@ {
        Some(Strategy::Sparse)
    } else if n == "shallow"@ {
        Some(Strategy::Shallow)
    } else if n == "full"@ {
        Some(Strategy::Full)
    } else {
        None
    }
}

/// The LFS backend with this (lowercase) name.
pub open spec fn lfs_backend_from_name(n: Seq<char>) -> Option<LfsBackend> {
    if n == "auto"@ {
        Some(LfsBackend::Auto)
    } else if n == "git"@ {
        Some(LfsBackend::Git)
    } else if n == "aria2c"@ {
        Some(LfsBackend::Aria2c)
    } else {
        None
    }
}

/// The strategy with this lowercase name.
pub fn strategy_from_lowercase(name: &str) -> (r: Option<Strategy>)
    ensures
        r == strategy_from_name(name@),
{
    if same_text(name, "auto") {
        Some(Strategy::Auto)
    } else if same_text(name, "blobless") {
        Some(Strategy::Blobless)
    } else if same_text(name, "sparse") {
        Some(Strategy::Sparse)
    } else if same_text(name, "shallow") {
        Some(Strategy::Shallow)
    } else if same_text(name, "full") {
        Some(Strategy::Full)
    } else {
        None
    }
}

/// The LFS backend with this lowercase name.
pub fn lfs_backend_from_lowercase(name: &str) -> (r: Option<LfsBackend>)
    ensures
        r == lfs_backend_from_name(name@),
{
    if same_text(name, "auto") {
        Some(LfsBackend::Auto)
    } else if same_text(name, "git") {
        Some(LfsBackend::Git)
    } else if same_text(name, "aria2c") {
        Some(LfsBackend::Aria2c)
    } else {
        None
    }
}

/// The strategy named `s`, in any case.
pub fn parse_strategy(s: &str) -> (r: Option<Strategy>)
    ensures
        r == strategy_from_name(lowercase_of(s@)),
        is_ascii_chars(s@) ==> r == strategy_from_name(ascii_lower_seq(s@)),
{
    let lowered = to_lowercase(s);
    strategy_from_lowercase(lowered.as_str())
}

/// The LFS backend named `s`, in any case.
pub fn parse_lfs_backend(s: &str) -> (r: Option<LfsBackend>)
    ensures
        r == lfs_backend_from_name(lowercase_of(s@)),
        is_ascii_chars(s@) ==> r == lfs_backend_from_name(ascii_lower_seq(s@)),
{
    let lowered = to_lowercase(s);
    lfs_backend_from_lowercase(lowered.as_str())
}

/// Every strategy's displayed name is ASCII and reads back, in any ASCII case
/// mixture that lowercases to it, as that strategy.
pub proof fn law_strategy_name_round_trip(s: Strategy)
    ensures
        is_ascii_chars(strategy_name(s)),
        ascii_lower_seq(strategy_name(s)) == strategy_name(s),
        strategy_from_name(strategy_name(s)) == Some(s),
{
    reveal_strlit("auto");
    reveal_strlit("blobless");
    reveal_strlit("sparse");
    reveal_strlit("shallow");
    reveal_strlit("full");
    assert(ascii_lower_seq(strategy_name(s)) =~= strategy_name(s));
    if s != Strategy::Auto {
        assert(strategy_name(s) != "auto"@) by {
            assert(strategy_name(s).len() != 4 || strategy_name(s)[0] != 'a');
        }
    }
    if s != Strategy::Auto && s != Strategy::Blobless {
        assert(strategy_name(s) != "blobless"@) by {
            assert(strategy_name(s).len() != 8);
        }
    }
    if s == Strategy::Shallow || s == Strategy::Full {
        assert(strategy_name(s) != "sparse"@) by {
            assert(strategy_name(s).len() != 6 || strategy_name(s)[1] != 'p');
        }
    }
    if s == Strategy::Full {
        assert(strategy_name(s) != "shallow"@) by {
            assert(strategy_name(s).len() != 7);
        }
    }
}

/// Every LFS backend's displayed name is ASCII and reads back as that backend.
pub proof fn law_lfs_backend_name_round_trip(b: LfsBackend)
    ensures
        is_ascii_chars(lfs_backend_name(b)),
        ascii_lower_seq(lfs_backend_name(b)) == lfs_backend_name(b),
        lfs_backend_from_name(lfs_backend_name(b)) == Some(b),
{
    reveal_strlit("auto");
    reveal_strlit("git");
    reveal_strlit("aria2c");
    assert(ascii_lower_seq(lfs_backend_name(b)) =~= lfs_backend_name(b));
    if b != LfsBackend::Auto {
        assert(lfs_backend_name(b) != "auto"@) by {
            assert(lfs_backend_name(b).len() != 4);
        }
    }
    if b == LfsBackend::Aria2c {
        assert(lfs_backend_name(b) != "git"@) by {
            assert(lfs_backend_name(b).len() != 3);
        }
    }
}

/// `path` with a leading `~` (alone or before `/`) replaced by the home directory,
/// when that is known.
pub open spec fn expand_tilde_of(path: Seq<char>, home: Option<Seq<char>>) -> Seq<char> {
    match home {
        Some(h) => if has_prefix(path, "~/"@) {
            h + "/"@ + path.skip(2)
        } else if path == "~"@ {
            h
        } else {
            path
        },
        None => path,
    }
}

/// Only a leading `~` alone or before `/` is replaced by the home directory:
/// `~/rest` becomes `<home>/rest`, `~` becomes `<home>`, and every other path
/// (also `~user/..`), or any path when the home directory is unknown, is kept.
pub proof fn law_tilde_expansion(rest: Seq<char>, path: Seq<char>, home: Seq<char>)
    ensures
        expand_tilde_of("~/"@ + rest, Some(home)) == home + "/"@ + rest,
        expand_tilde_of("~"@, Some(home)) == home,
        !has_prefix(path, "~"@) ==> expand_tilde_of(path, Some(home)) == path,
        expand_tilde_of(path, None) == path,
{
    reveal_strlit("~/");
    reveal_strlit("~");
    reveal_strlit("/");
    let p = "~/"@ + rest;
    assert(has_prefix(p, "~/"@));
    assert(p.skip(2) =~= rest);
    assert(!has_prefix("~"@, "~/"@));
    if !has_prefix(path, "~"@) {
        if has_prefix(path, "~/"@) {
            assert(path[0int] == "~/"@[0int]);
            assert(forall|j: int| 0 <= j < 1 ==> path[0 + j] == "~"@[j]);
            assert(has_prefix(path, "~"@));
        }
        if path == "~"@ {
            assert(has_prefix(path, "~"@));
        }
    }
}

/// The text of an optional string slice.
pub open spec fn opt_str(o: Option<&str>) -> Option<Seq<char>> {
    match o {
        Some(s) => Some(s@),
        None => None,
    }
}

/// `path` with a leading `~` replaced by `home` (the `HOME` directory, if set).
pub fn expand_tilde(path: &str, home: Option<&str>) -> (r: String)
    ensures
        r@ == expand_tilde_of(path@, opt_str(home)),
{
    proof {
        reveal_strlit("~/");
        reveal_strlit("~");
    }
    match home {
        Some(h) => {
            match strip_prefix(path, "~/") {
                Some(rest) => {
                    return concat3(h, "/", rest.as_str());
                },
                None => {},
            }
            if same_text(path, "~") {
                return owned(h);
            }
            owned(path)
        },
        None => owned(path),
    }
}

/// Where the configuration file is: `FGC_CONFIG` if set, else
/// `fgc/config.toml` under `XDG_CONFIG_HOME`, else under `HOME/.config`.
pub open spec fn config_path_of(
    fgc_config: Option<Seq<char>>,
    xdg_config_home: Option<Seq<char>>,
    home: Option<Seq<char>>,
) -> Option<Seq<char>> {
    match fgc_config {
        Some(p) => Some(p),
        None => {
            let base = match xdg_config_home {
                Some(x) => Some(x),
                None => match home {
                    Some(h) => Some(path_join_of(h, ".config"@)),
                    None => None,
                },
            };
            match base {
                Some(b) => Some(path_join_of(path_join_of(b, "fgc"@), "config.toml"@)),
                None => None,
            }
        },
    }
}

/// Where the configuration file is, given the environment variables
/// `FGC_CONFIG`, `XDG_CONFIG_HOME` and `HOME` (each if set).
pub fn config_path(fgc_config: Option<&str>, xdg_config_home: Option<&str>, home: Option<&str>) -> (r: Option<String>)
    ensures
        opt_str_owned(r) == config_path_of(opt_str(fgc_config), opt_str(xdg_config_home), opt_str(home)),
{
    match fgc_config {
        Some(p) => Some(owned(p)),
        None => {
            let base = match xdg_config_home {
                Some(x) => Some(owned(x)),
                None => match home {
                    Some(h) => Some(path_join(h, ".config")),
                    None => None,
                },
            };
            match base {
                Some(b) => {
                    let f = path_join(b.as_str(), "fgc");
                    Some(path_join(f.as_str(), "config.toml"))
                },
                None => None,
            }
        },
    }
}

/// The text of an optional string.
pub open spec fn opt_str_owned(o: Option<String>) -> Option<Seq<char>> {
    match o {
        Some(s) => Some(s@),
        None => None,
    }
}

impl Config {
    /// The configuration from the file that was read: the file's settings when it
    /// was there and parsed, nothing otherwise.
    pub fn load(loaded: Option<Result<Config, FgcError>>) -> (c: Config)
        ensures
            loaded matches Some(Ok(f)) ==> c == f,
            !(loaded matches Some(Ok(_))) ==> is_empty_config(c),
    {
        match loaded {
            Some(Ok(c)) => c,
            _ => Config::default(),
        }
    }

    /// The configured default strategy, if it names one.
    pub fn default_strategy(&self) -> (r: Option<Strategy>)
        ensures
            r == config_strategy(*self),
    {
        match &self.default_strategy {
            Some(s) => parse_strategy(s.as_str()),
            None => None,
        }
    }

    /// The configured LFS backend, if it names one.
    pub fn lfs_backend(&self) -> (r: Option<LfsBackend>)
        ensures
            r == config_lfs_backend(*self),
    {
        match &self.lfs_backend {
            Some(s) => parse_lfs_backend(s.as_str()),
            None => None,
        }
    }

    /// The configured reference repository, with `~` expanded to `home`.
    pub fn expand_reference(&self, home: Option<&str>) -> (r: Option<String>)
        ensures
            opt_str_owned(r) == match self.reference {
                Some(p) => Some(expand_tilde_of(p@, opt_str(home))),
                None => None,
            },
    {
        match &self.reference {
            Some(p) => Some(expand_tilde(p.as_str(), home)),
            None => None,
        }
    }
}

/// The strategy the configuration names, if any.
pub open spec fn config_strategy(c: Config) -> Option<Strategy> {
    match c.default_strategy {
        Some(s) => strategy_from_name(lowercase_of(s@)),
        None => None,
    }
}

/// The LFS backend the configuration names, if any.
pub open spec fn config_lfs_backend(c: Config) -> Option<LfsBackend> {
    match c.lfs_backend {
        Some(s) => lfs_backend_from_name(lowercase_of(s@)),
        None => None,
    }
}

/// The reference repository after configuration: the command line's (expanded)
/// when given, else the configuration's (expanded).
pub open spec fn reference_after_config(
    given: Option<Seq<char>>,
    configured: Option<Seq<char>>,
    home: Option<Seq<char>>,
) -> Option<Seq<char>> {
    match given {
        Some(r) => Some(expand_tilde_of(r, home)),
        None => match configured {
            Some(p) => Some(expand_tilde_of(p, home)),
            None => None,
        },
    }
}

/// A configured number replaces the command line's only where that is the default.
pub open spec fn number_after_config(given: u32, default: u32, configured: Option<u32>) -> u32 {
    match configured {
        Some(v) => if given == default {
            v
        } else {
            given
        },
        None => given,
    }
}

/// Fills in `fgc clone` arguments from the configuration: each setting replaces
/// the command line's value only where that value is the default (`auto`,
/// 8 jobs, depth 1, no TUI, 16 connections); a reference repository given on the
/// command line wins over the configured one; both have `~` expanded to `home`.
pub fn apply_config_to_clone(args: CloneArgs, cfg: &Config, home: Option<&str>) -> (r: CloneArgs)
    ensures
        r.strategy == (if args.strategy == Strategy::Auto {
            match config_strategy(*cfg) {
                Some(s) => s,
                None => args.strategy,
            }
        } else {
            args.strategy
        }),
        r.lfs_jobs == number_after_config(args.lfs_jobs, DEFAULT_LFS_JOBS, cfg.lfs_jobs),
        r.depth == number_after_config(args.depth, DEFAULT_DEPTH, cfg.depth),
        opt_str_owned(r.reference) == reference_after_config(
            opt_str_owned(args.reference),
            opt_str_owned(cfg.reference),
            opt_str(home),
        ),
        r.tui == (args.tui || cfg.tui == Some(true)),
        r.lfs_backend == (if args.lfs_backend == LfsBackend::Auto {
            match config_lfs_backend(*cfg) {
                Some(b) => b,
                None => args.lfs_backend,
            }
        } else {
            args.lfs_backend
        }),
        r.aria2c_connections == number_after_config(
            args.aria2c_connections,
            DEFAULT_ARIA2C_CONNECTIONS,
            cfg.aria2c_connections,
        ),
        r.url == args.url,
        r.dest == args.dest,
        r.paths == args.paths,
        r.no_resume == args.no_resume,
        r.yes == args.yes,
        // values given on the command line that differ from the defaults are kept
        args.strategy != Strategy::Auto ==> r.strategy == args.strategy,
        args.lfs_jobs != DEFAULT_LFS_JOBS ==> r.lfs_jobs == args.lfs_jobs,
        args.depth != DEFAULT_DEPTH ==> r.depth == args.depth,
        args.tui ==> r.tui,
        args.lfs_backend != LfsBackend::Auto ==> r.lfs_backend == args.lfs_backend,
        args.aria2c_connections != DEFAULT_ARIA2C_CONNECTIONS ==> r.aria2c_connections
            == args.aria2c_connections,
{
    let mut args = args;
    if args.strategy == Strategy::Auto {
        match cfg.default_strategy() {
            Some(s) => {
                args.strategy = s;
            },
            None => {},
        }
    }
    match cfg.lfs_jobs {
        Some(jobs) => {
            if args.lfs_jobs == DEFAULT_LFS_JOBS {
                args.lfs_jobs = jobs;
            }
        },
        None => {},
    }
    match cfg.depth {
        Some(depth) => {
            if args.depth == DEFAULT_DEPTH {
                args.depth = depth;
            }
        },
        None => {},
    }
    let reference = match &args.reference {
        None => cfg.expand_reference(home),
        Some(r) => Some(expand_tilde(r.as_str(), home)),
    };
    args.reference = reference;
    if !args.tui {
        match cfg.tui {
            Some(t) => {
                args.tui = t;
            },
            None => {},
        }
    }
    if args.lfs_backend == LfsBackend::Auto {
        match cfg.lfs_backend() {
            Some(b) => {
                args.lfs_backend = b;
            },
            None => {},
        }
    }
    match cfg.aria2c_connections {
        Some(c) => {
            if args.aria2c_connections == DEFAULT_ARIA2C_CONNECTIONS {
                args.aria2c_connections = c;
            }
        },
        None => {},
    }
    args
}

/// Fills in `fgc benchmark` arguments from the configuration: the depth (where the
/// command line has the default) and the reference repository, as for `fgc clone`.
pub fn apply_config_to_benchmark(args: BenchmarkArgs, cfg: &Config, home: Option<&str>) -> (r: BenchmarkArgs)
    ensures
        r.depth == number_after_config(args.depth, DEFAULT_DEPTH, cfg.depth),
        opt_str_owned(r.reference) == reference_after_config(
            opt_str_owned(args.reference),
            opt_str_owned(cfg.reference),
            opt_str(home),
        ),
        r.url == args.url,
        r.strategies == args.strategies,
        r.paths == args.paths,
        r.keep == args.keep,
        r.work_dir == args.work_dir,
        args.depth != DEFAULT_DEPTH ==> r.depth == args.depth,
{
    let mut args = args;
    match cfg.depth {
        Some(depth) => {
            if args.depth == DEFAULT_DEPTH {
                args.depth = depth;
            }
        },
        None => {},
    }
    let reference = match &args.reference {
        None => cfg.expand_reference(home),
        Some(r) => Some(expand_tilde(r.as_str(), home)),
    };
    args.reference = reference;
    args
}

} // verus!
