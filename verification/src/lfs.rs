use vstd::prelude::*;
use crate::cli::{LfsBackend, DEFAULT_ARIA2C_CONNECTIONS, DEFAULT_LFS_JOBS};
use crate::decimal::{decimal, decimal_string, parse_unsigned, parse_unsigned_max};
use crate::error::FgcError;
use crate::outside::{utf8_lossy, utf8_lossy_of};
use crate::text::{
    concat2, contains_char, contains_str, has_char, has_substring, owned, trim_end_char,
    trim_end_matches_char,
};
use crate::words::{lines, split_lines, split_whitespace, split_ws};

verus! {

/// How LFS objects are fetched.
#[derive(Debug, Clone, Copy)]
pub struct LfsPullOptions {
    /// Number of parallel download jobs
    pub jobs: u32,
    /// Which tool downloads
    pub backend: LfsBackend,
    /// aria2c connections per file
    pub aria2c_connections: u32,
}

impl Default for LfsPullOptions {
    fn default() -> (o: LfsPullOptions)
        ensures
            o.jobs == DEFAULT_LFS_JOBS,
            o.backend == LfsBackend::Auto,
            o.aria2c_connections == DEFAULT_ARIA2C_CONNECTIONS,
    {
        LfsPullOptions {
            jobs: DEFAULT_LFS_JOBS,
            backend: LfsBackend::Auto,
            aria2c_connections: DEFAULT_ARIA2C_CONNECTIONS,
        }
    }
}

/// Which way LFS objects are fetched.
#[derive(Debug, Clone, Copy, PartialEq, Eq, Structural)]
pub enum LfsRoute {
    /// Download with aria2c (falling back to git lfs if that fails)
    Aria2c,
    /// Run `git lfs pull`
    Git,
    /// Use aria2c if it is installed, else git lfs
    Aria2cIfInstalled,
}

/// Which way a backend fetches LFS objects.
pub fn lfs_route(backend: LfsBackend) -> (r: LfsRoute)
    ensures
        r == match backend {
            LfsBackend::Aria2c => LfsRoute::Aria2c,
            LfsBackend::Git => LfsRoute::Git,
            LfsBackend::Auto => LfsRoute::Aria2cIfInstalled,
        },
{
    match backend {
        LfsBackend::Aria2c => LfsRoute::Aria2c,
        LfsBackend::Git => LfsRoute::Git,
        LfsBackend::Auto => LfsRoute::Aria2cIfInstalled,
    }
}

/// Whether `.gitattributes` content routes files through LFS.
pub fn attributes_use_lfs(content: &str) -> (b: bool)
    ensures
        b == has_substring(content@, "filter=lfs"@),
{
    contains_str(content, "filter=lfs")
}

/// The first word that ends with `%`.
pub open spec fn first_percent_word(ws: Seq<Seq<char>>) -> Option<Seq<char>>
    decreases ws.len(),
{
    if ws.len() == 0 {
        None
    } else if ws[0].len() > 0 && ws[0].last() == '%' {
        Some(ws[0])
    } else {
        first_percent_word(ws.drop_first())
    }
}

/// The percent a line of `git lfs pull` output reports: the first word ending with
/// `%`, read as a number without its `%` signs.
pub open spec fn percent_in_line(line: Seq<char>) -> Option<u64> {
    match first_percent_word(split_ws(line)) {
        Some(w) => match parse_unsigned(trim_end_char(w, '%'), u64::MAX as nat) {
            Some(n) => Some(n as u64),
            None => None,
        },
        None => None,
    }
}

/// The percent a line of `git lfs pull` output reports, if any.
pub fn extract_percent(line: &str) -> (r: Option<u64>)
    ensures
        r == percent_in_line(line@),
{
    let words = split_whitespace(line);
    let ghost ws = split_ws(line@);
    let mut i: usize = 0;
    assert(ws.skip(0) =~= ws);
    while i < words.len()
        invariant
            words@.len() == ws.len(),
            forall|k: int| 0 <= k < words@.len() ==> #[trigger] words@[k]@ == ws[k],
            ws == split_ws(line@),
            i <= words@.len(),
            first_percent_word(ws) == first_percent_word(ws.skip(i as int)),
        decreases words@.len() - i,
    {
        assert(ws.skip(i as int).drop_first() =~= ws.skip(i + 1));
        let w = &words[i];
        let n = w.unicode_len();
        if n > 0 && w.get_char(n - 1) == '%' {
            let digits = trim_end_matches_char(w.as_str(), '%');
            return match parse_unsigned_max(digits.as_str(), u64::MAX) {
                Some(v) => Some(v),
                None => None,
            };
        }
        i += 1;
    }
    None
}

/// The progress updates in the output of `git lfs pull`: for each line holding a
/// `%` that reports a percent, that percent and the line.
pub open spec fn pull_updates(ls: Seq<Seq<char>>) -> Seq<(u64, Seq<char>)>
    decreases ls.len(),
{
    if ls.len() == 0 {
        Seq::empty()
    } else {
        let rest = pull_updates(ls.drop_first());
        if has_char(ls[0], '%') {
            match percent_in_line(ls[0]) {
                Some(p) => seq![(p, ls[0])] + rest,
                None => rest,
            }
        } else {
            rest
        }
    }
}

/// The update one line gives: its percent and the line, for a line holding a `%`
/// that reports a percent.
pub open spec fn update_of(line: Seq<char>) -> Option<(u64, Seq<char>)> {
    if has_char(line, '%') {
        match percent_in_line(line) {
            Some(p) => Some((p, line)),
            None => None,
        }
    } else {
        None
    }
}

/// The updates are those of the lines that report a percent, one per such line,
/// in the order of the lines.
pub proof fn law_one_update_per_percent_line(ls: Seq<Seq<char>>)
    ensures
        pull_updates(ls) == ls.filter_map(|l: Seq<char>| update_of(l)),
    decreases ls.len(),
{
    let f = |l: Seq<char>| update_of(l);
    if ls.len() > 0 {
        law_one_update_per_percent_line(ls.drop_first());
        assert(ls =~= seq![ls[0]] + ls.drop_first());
        crate::text::lemma_filter_map_prepend(ls[0], ls.drop_first(), f);
        match update_of(ls[0]) {
            Some(u) => {},
            None => {
                assert(Seq::<(u64, Seq<char>)>::empty() + ls.drop_first().filter_map(f)
                    =~= ls.drop_first().filter_map(f));
            },
        }
    } else {
        assert(ls.filter_map(f) =~= Seq::<(u64, Seq<char>)>::empty());
    }
}

/// Updates as plain values.
pub open spec fn updates_view(v: Seq<(u64, String)>) -> Seq<(u64, Seq<char>)> {
    v.map_values(|u: (u64, String)| (u.0, u.1@))
}

/// The progress updates in the (error) output of `git lfs pull`.
pub fn lfs_pull_updates(stderr: &[u8]) -> (r: Vec<(u64, String)>)
    ensures
        updates_view(r@) == pull_updates(split_lines(utf8_lossy_of(stderr@))),
        // one update per line that reports a percent, in order
        updates_view(r@) == split_lines(utf8_lossy_of(stderr@)).filter_map(
            |l: Seq<char>| update_of(l),
        ),
{
    proof {
        law_one_update_per_percent_line(split_lines(utf8_lossy_of(stderr@)));
    }
    let text = utf8_lossy(stderr);
    let ls = lines(text.as_str());
    let ghost all = split_lines(text@);
    let mut out: Vec<(u64, String)> = Vec::new();
    let mut i: usize = ls.len();
    assert(all.skip(i as int) =~= Seq::<Seq<char>>::empty());
    while i > 0
        invariant
            ls@.len() == all.len(),
            forall|k: int| 0 <= k < ls@.len() ==> #[trigger] ls@[k]@ == all[k],
            i <= ls@.len(),
            updates_view(out@) == pull_updates(all.skip(i as int)),
        decreases i,
    {
        i -= 1;
        assert(all.skip(i as int).drop_first() =~= all.skip(i + 1));
        let line = &ls[i];
        if contains_char(line.as_str(), '%') {
            match extract_percent(line.as_str()) {
                Some(p) => {
                    let mut next: Vec<(u64, String)> = Vec::new();
                    next.push((p, line.clone()));
                    let ghost before = out@;
                    next.append(&mut out);
                    out = next;
                    assert(updates_view(out@) =~= seq![(p, all[i as int])] + updates_view(before));
                },
                None => {},
            }
        }
    }
    assert(all.skip(0) =~= all);
    out
}

/// The arguments of `git` that pull LFS objects with `jobs` parallel jobs.
pub fn lfs_pull_args(jobs: u32) -> (v: Vec<String>)
    ensures
        v@.len() == 4,
        v@[0]@ == "lfs"@,
        v@[1]@ == "pull"@,
        v@[2]@ == "--include=*"@,
        v@[3]@ == "--jobs="@ + decimal(jobs as nat),
{
    let mut v: Vec<String> = Vec::new();
    v.push(owned("lfs"));
    v.push(owned("pull"));
    v.push(owned("--include=*"));
    let n = decimal_string(jobs as u64);
    v.push(concat2("--jobs=", n.as_str()));
    v
}

} // verus!

verus! {

/// How fetching LFS objects ended when it did not fail.
#[derive(Debug, Clone, Copy, PartialEq, Eq, Structural)]
pub enum LfsPulled {
    /// git-lfs is not installed: nothing was fetched (the user is warned).
    LfsNotInstalled,
    /// The repository routes no files through LFS.
    NotUsed,
    /// aria2c fetched the objects.
    WithAria2c,
    /// `git lfs pull` fetched the objects.
    WithGit,
}

/// What the caller does next while fetching LFS objects.
#[derive(Debug)]
pub enum LfsAction {
    /// Find out whether git-lfs is installed, and report it with `on_check`.
    CheckLfsInstalled,
    /// Find out whether `.gitattributes` routes files through LFS (`on_check`).
    CheckRepoUsesLfs,
    /// Show that the LFS download starts, then report with `on_done`.
    ReportStart,
    /// Find out whether aria2c is installed (`on_check`).
    CheckAria2cInstalled,
    /// Fetch the objects with aria2c, then report the outcome with `on_done`.
    PullWithAria2c,
    /// Run `git lfs pull`, then report the outcome with `on_done`; when aria2c
    /// failed before, its error is given to warn the user.
    PullWithGit { aria2c_error: Option<FgcError> },
    /// Fetching is over.
    Finish(Result<LfsPulled, FgcError>),
}

/// Where fetching LFS objects stands.
#[derive(Debug, Clone, Copy, PartialEq, Eq, Structural)]
pub enum LfsStage {
    AwaitLfsInstalled,
    AwaitRepoUsesLfs,
    Starting,
    AwaitAria2cInstalled,
    Aria2c,
    Git,
    Finished,
}

/// The decisions of fetching LFS objects, driven by what the caller finds out
/// and by the outcome of each download.
pub struct LfsPull {
    backend: LfsBackend,
    stage: LfsStage,
}

/// The action that runs the download of `stage`, or finishes after `Finished`.
pub open spec fn pull_action_for(stage: LfsStage, a: LfsAction) -> bool {
    match stage {
        LfsStage::Aria2c => a is PullWithAria2c,
        LfsStage::Git => a matches LfsAction::PullWithGit { aria2c_error: None },
        LfsStage::AwaitAria2cInstalled => a is CheckAria2cInstalled,
        _ => false,
    }
}

/// The stage a backend's route leads to once the download starts.
pub open spec fn stage_for_route(backend: LfsBackend) -> LfsStage {
    match backend {
        LfsBackend::Aria2c => LfsStage::Aria2c,
        LfsBackend::Git => LfsStage::Git,
        LfsBackend::Auto => LfsStage::AwaitAria2cInstalled,
    }
}

impl LfsPull {
    /// Where fetching stands.
    pub closed spec fn stage(&self) -> LfsStage {
        self.stage
    }

    /// The backend asked for.
    pub closed spec fn backend(&self) -> LfsBackend {
        self.backend
    }

    /// Starts fetching with `backend`: first find out whether git-lfs is installed.
    pub fn start(backend: LfsBackend) -> (res: (LfsPull, LfsAction))
        ensures
            res.0.stage() == LfsStage::AwaitLfsInstalled,
            res.0.backend() == backend,
            res.1 is CheckLfsInstalled,
    {
        (LfsPull { backend, stage: LfsStage::AwaitLfsInstalled }, LfsAction::CheckLfsInstalled)
    }

    /// Takes the answer to a check and says what to do next: without git-lfs, or
    /// without LFS files, fetching ends at once; with both the download starts;
    /// with aria2c installed it downloads, else `git lfs pull` does.
    pub fn on_check(&mut self, answer: bool) -> (a: LfsAction)
        requires
            old(self).stage() == LfsStage::AwaitLfsInstalled || old(self).stage()
                == LfsStage::AwaitRepoUsesLfs || old(self).stage() == LfsStage::AwaitAria2cInstalled,
        ensures
            final(self).backend() == old(self).backend(),
            (a is Finish) == (final(self).stage() == LfsStage::Finished),
            old(self).stage() == LfsStage::AwaitLfsInstalled ==> if answer {
                final(self).stage() == LfsStage::AwaitRepoUsesLfs && a is CheckRepoUsesLfs
            } else {
                a matches LfsAction::Finish(Ok(LfsPulled::LfsNotInstalled))
            },
            old(self).stage() == LfsStage::AwaitRepoUsesLfs ==> if answer {
                final(self).stage() == LfsStage::Starting && a is ReportStart
            } else {
                a matches LfsAction::Finish(Ok(LfsPulled::NotUsed))
            },
            old(self).stage() == LfsStage::AwaitAria2cInstalled ==> if answer {
                final(self).stage() == LfsStage::Aria2c && a is PullWithAria2c
            } else {
                final(self).stage() == LfsStage::Git && a matches LfsAction::PullWithGit {
                    aria2c_error: None,
                }
            },
    {
        match self.stage {
            LfsStage::AwaitLfsInstalled => {
                if answer {
                    self.stage = LfsStage::AwaitRepoUsesLfs;
                    LfsAction::CheckRepoUsesLfs
                } else {
                    self.stage = LfsStage::Finished;
                    LfsAction::Finish(Ok(LfsPulled::LfsNotInstalled))
                }
            },
            LfsStage::AwaitRepoUsesLfs => {
                if answer {
                    self.stage = LfsStage::Starting;
                    LfsAction::ReportStart
                } else {
                    self.stage = LfsStage::Finished;
                    LfsAction::Finish(Ok(LfsPulled::NotUsed))
                }
            },
            _ => {
                if answer {
                    self.stage = LfsStage::Aria2c;
                    LfsAction::PullWithAria2c
                } else {
                    self.stage = LfsStage::Git;
                    LfsAction::PullWithGit { aria2c_error: None }
                }
            },
        }
    }

    /// Takes the outcome of the last step and says what to do next: once started,
    /// the backend's route decides (aria2c, git, or aria2c if it is installed); a
    /// failed aria2c download falls back to `git lfs pull`; the outcome of
    /// `git lfs pull` ends fetching.
    pub fn on_done(&mut self, outcome: Result<(), FgcError>) -> (a: LfsAction)
        requires
            old(self).stage() == LfsStage::Starting || old(self).stage() == LfsStage::Aria2c
                || old(self).stage() == LfsStage::Git,
        ensures
            final(self).backend() == old(self).backend(),
            (a is Finish) == (final(self).stage() == LfsStage::Finished),
            old(self).stage() == LfsStage::Starting ==> final(self).stage() == stage_for_route(
                old(self).backend(),
            ) && pull_action_for(final(self).stage(), a),
            old(self).stage() == LfsStage::Aria2c ==> match outcome {
                Ok(()) => a matches LfsAction::Finish(Ok(LfsPulled::WithAria2c)),
                Err(e) => final(self).stage() == LfsStage::Git && match a {
                    LfsAction::PullWithGit { aria2c_error: Some(f) } => f@ == e@,
                    _ => false,
                },
            },
            old(self).stage() == LfsStage::Git ==> match outcome {
                Ok(()) => a matches LfsAction::Finish(Ok(LfsPulled::WithGit)),
                Err(e) => match a {
                    LfsAction::Finish(Err(f)) => f@ == e@,
                    _ => false,
                },
            },
    {
        match self.stage {
            LfsStage::Starting => match lfs_route(self.backend) {
                LfsRoute::Aria2c => {
                    self.stage = LfsStage::Aria2c;
                    LfsAction::PullWithAria2c
                },
                LfsRoute::Git => {
                    self.stage = LfsStage::Git;
                    LfsAction::PullWithGit { aria2c_error: None }
                },
                LfsRoute::Aria2cIfInstalled => {
                    self.stage = LfsStage::AwaitAria2cInstalled;
                    LfsAction::CheckAria2cInstalled
                },
            },
            LfsStage::Aria2c => match outcome {
                Ok(()) => {
                    self.stage = LfsStage::Finished;
                    LfsAction::Finish(Ok(LfsPulled::WithAria2c))
                },
                Err(e) => {
                    self.stage = LfsStage::Git;
                    LfsAction::PullWithGit { aria2c_error: Some(e) }
                },
            },
            _ => {
                self.stage = LfsStage::Finished;
                match outcome {
                    Ok(()) => LfsAction::Finish(Ok(LfsPulled::WithGit)),
                    Err(e) => LfsAction::Finish(Err(e)),
                }
            },
        }
    }
}

/// Once the download starts, every backend leads to a download or, for `auto`,
/// to the check for aria2c; only `git` goes straight to `git lfs pull`.
pub proof fn law_lfs_route_reaches_download(backend: LfsBackend)
    ensures
        stage_for_route(backend) == LfsStage::Aria2c || stage_for_route(backend) == LfsStage::Git
            || stage_for_route(backend) == LfsStage::AwaitAria2cInstalled,
        backend == LfsBackend::Git <==> stage_for_route(backend) == LfsStage::Git,
{
}

} // verus!
