use vstd::prelude::*;
use crate::decimal::{decimal, law_decimal_round_trip, parse_unsigned};
use crate::outside::{captures_view, groups_view, regex_captures, regex_captures_of};
use crate::text::{concat2, contains_str, has_substring, owned};

verus! {

/// Matches git's "Receiving objects" progress: percent, counts, speed and its unit.
pub const RECEIVING_PATTERN: &'static str = r"(?i)Receiving objects:\s*(\d+)%\s*\((\d+)/(\d+)\),\s*([\d.]+)\s*([KMG]?i?B)/s";

/// Matches git's "Resolving deltas" progress.
pub const RESOLVING_PATTERN: &'static str = r"(?i)Resolving deltas:\s*(\d+)%\s*\((\d+)/(\d+)\)";

/// Matches git's "Counting objects" progress.
pub const COUNTING_PATTERN: &'static str = r"(?i)Counting objects:\s*(\d+)%\s*\((\d+)/(\d+)\)";

/// Matches git's "Compressing objects" progress.
pub const COMPRESSING_PATTERN: &'static str = r"(?i)Compressing objects:\s*(\d+)%\s*\((\d+)/(\d+)\)";

/// The number of phases of a clone.
pub const PHASE_COUNT: usize = 6;

/// One phase of a clone, as the dashboard shows it.
#[derive(Debug)]
pub struct PhaseStatus {
    pub name: String,
    pub percent: u8,
    pub detail: String,
    pub done: bool,
}

/// The progress of a clone, as the dashboard shows it. The time the clone started
/// is kept by whoever shows the elapsed time.
#[derive(Debug)]
pub struct CloneStatus {
    pub strategy: String,
    pub url: String,
    pub dest: String,
    pub phases: [PhaseStatus; 6],
    pub current_phase: usize,
    pub speed: String,
    pub message: String,
    pub done: bool,
    pub success: bool,
}

/// The plain values of a phase.
pub struct PhaseView {
    pub name: Seq<char>,
    pub percent: u8,
    pub detail: Seq<char>,
    pub done: bool,
}

/// The plain values of a clone's progress.
pub struct StatusView {
    pub strategy: Seq<char>,
    pub url: Seq<char>,
    pub dest: Seq<char>,
    pub phases: Seq<PhaseView>,
    pub current_phase: usize,
    pub speed: Seq<char>,
    pub message: Seq<char>,
    pub done: bool,
    pub success: bool,
}

impl View for PhaseStatus {
    type V = PhaseView;

    open spec fn view(&self) -> PhaseView {
        PhaseView { name: self.name@, percent: self.percent, detail: self.detail@, done: self.done }
    }
}

impl View for CloneStatus {
    type V = StatusView;

    open spec fn view(&self) -> StatusView {
        StatusView {
            strategy: self.strategy@,
            url: self.url@,
            dest: self.dest@,
            phases: self.phases@.map_values(|p: PhaseStatus| p@),
            current_phase: self.current_phase,
            speed: self.speed@,
            message: self.message@,
            done: self.done,
            success: self.success,
        }
    }
}

/// The names of the phases, in order.
pub open spec fn phase_names() -> Seq<Seq<char>> {
    seq![
        "Negotiating refs"@,
        "Receiving objects"@,
        "Resolving deltas"@,
        "LFS files"@,
        "Checking out files"@,
        "Post-processing"@,
    ]
}

/// Phase `index` becomes the current one; exactly the phases before it are done.
pub open spec fn set_active_view(s: StatusView, index: usize) -> StatusView {
    StatusView {
        current_phase: index,
        phases: Seq::new(
            s.phases.len(),
            |i: int| PhaseView { done: i < index, ..s.phases[i] },
        ),
        ..s
    }
}

/// Phase `index`, if there is one, gets the percent (at most 100) and the detail,
/// and becomes the current one.
pub open spec fn set_percent_view(s: StatusView, index: usize, percent: u8, detail: Seq<char>) -> StatusView {
    if index < s.phases.len() {
        StatusView {
            current_phase: index,
            phases: s.phases.update(
                index as int,
                PhaseView {
                    percent: if percent < 100 {
                        percent
                    } else {
                        100
                    },
                    detail,
                    ..s.phases[index as int]
                },
            ),
            ..s
        }
    } else {
        s
    }
}

/// Phase `index`, if there is one, is done at 100 percent.
pub open spec fn finish_phase_view(s: StatusView, index: usize) -> StatusView {
    if index < s.phases.len() {
        StatusView {
            phases: s.phases.update(
                index as int,
                PhaseView { percent: 100, done: true, ..s.phases[index as int] },
            ),
            ..s
        }
    } else {
        s
    }
}

/// The clone is over; on success every unfinished phase is done at 100 percent.
pub open spec fn mark_done_view(s: StatusView, success: bool) -> StatusView {
    StatusView {
        done: true,
        success,
        phases: Seq::new(
            s.phases.len(),
            |i: int|
                if s.phases[i].done {
                    s.phases[i]
                } else {
                    PhaseView {
                        percent: if success {
                            100
                        } else {
                            s.phases[i].percent
                        },
                        done: success,
                        ..s.phases[i]
                    }
                },
        ),
        ..s
    }
}

/// No phase claims more than 100 percent.
pub open spec fn percents_bounded(s: StatusView) -> bool {
    forall|i: int| 0 <= i < s.phases.len() ==> #[trigger] s.phases[i].percent <= 100
}

/// A phase named `name`, not started.
pub fn phase(name: &str) -> (p: PhaseStatus)
    ensures
        p@ == (PhaseView { name: name@, percent: 0, detail: Seq::empty(), done: false }),
{
    PhaseStatus { name: owned(name), percent: 0, detail: String::new(), done: false }
}

impl CloneStatus {
    /// The progress of a clone that has not started.
    pub fn new(strategy: &str, url: &str, dest: &str) -> (s: CloneStatus)
        ensures
            s@.strategy == strategy@,
            s@.url == url@,
            s@.dest == dest@,
            s@.phases.len() == PHASE_COUNT,
            forall|i: int|
                0 <= i < PHASE_COUNT ==> #[trigger] s@.phases[i] == (PhaseView {
                    name: phase_names()[i],
                    percent: 0,
                    detail: Seq::empty(),
                    done: false,
                }),
            s@.current_phase == 0,
            s@.speed == Seq::<char>::empty(),
            s@.message == "Starting..."@,
            !s@.done,
            !s@.success,
            percents_bounded(s@),
    {
        CloneStatus {
            strategy: owned(strategy),
            url: owned(url),
            dest: owned(dest),
            phases: [
                phase("Negotiating refs"),
                phase("Receiving objects"),
                phase("Resolving deltas"),
                phase("LFS files"),
                phase("Checking out files"),
                phase("Post-processing"),
            ],
            current_phase: 0,
            speed: String::new(),
            message: owned("Starting..."),
            done: false,
            success: false,
        }
    }

    /// Makes phase `index` the current one: the phases before it are done, the
    /// others not.
    pub fn set_phase_active(&mut self, index: usize)
        ensures
            final(self)@ == set_active_view(old(self)@, index),
            percents_bounded(old(self)@) ==> percents_bounded(final(self)@),
    {
        self.current_phase = index;
        let mut i: usize = 0;
        while i < 6
            invariant
                i <= 6,
                self@.current_phase == index,
                forall|j: int|
                    0 <= j < i ==> (#[trigger] self.phases@[j]).done == (j < index)
                        && self.phases@[j].name == old(self).phases@[j].name
                        && self.phases@[j].percent == old(self).phases@[j].percent
                        && self.phases@[j].detail == old(self).phases@[j].detail,
                forall|j: int| i <= j < 6 ==> #[trigger] self.phases@[j] == old(self).phases@[j],
                self@.strategy == old(self)@.strategy,
                self@.url == old(self)@.url,
                self@.dest == old(self)@.dest,
                self@.speed == old(self)@.speed,
                self@.message == old(self)@.message,
                self@.done == old(self)@.done,
                self@.success == old(self)@.success,
            decreases 6 - i,
        {
            self.phases[i].done = i < index;
            i += 1;
        }
        assert(self@.phases =~= set_active_view(old(self)@, index).phases);
    }

    /// Sets the percent (at most 100) and detail of phase `index` and makes it the
    /// current one; an index past the last phase changes nothing.
    pub fn set_phase_percent(&mut self, index: usize, percent: u8, detail: &str)
        ensures
            final(self)@ == set_percent_view(old(self)@, index, percent, detail@),
            percents_bounded(old(self)@) ==> percents_bounded(final(self)@),
    {
        if index < 6 {
            self.phases[index].percent = if percent < 100 {
                percent
            } else {
                100
            };
            self.phases[index].detail = owned(detail);
            self.current_phase = index;
            assert(self@.phases =~= set_percent_view(old(self)@, index, percent, detail@).phases);
        }
    }

    /// Marks phase `index` done at 100 percent; an index past the last phase
    /// changes nothing.
    pub fn finish_phase(&mut self, index: usize)
        ensures
            final(self)@ == finish_phase_view(old(self)@, index),
            percents_bounded(old(self)@) ==> percents_bounded(final(self)@),
    {
        if index < 6 {
            self.phases[index].percent = 100;
            self.phases[index].done = true;
            assert(self@.phases =~= finish_phase_view(old(self)@, index).phases);
        }
    }

    /// Sets the status message.
    pub fn set_message(&mut self, msg: &str)
        ensures
            final(self)@ == (StatusView { message: msg@, ..old(self)@ }),
    {
        self.message = owned(msg);
    }

    /// Sets the transfer speed shown.
    pub fn set_speed(&mut self, speed: &str)
        ensures
            final(self)@ == (StatusView { speed: speed@, ..old(self)@ }),
    {
        self.speed = owned(speed);
    }

    /// `git clone` is over: the checkout phase becomes current and is finished,
    /// and the message says so.
    pub fn finish_git_clone(&mut self)
        ensures
            final(self)@ == (StatusView {
                message: "Git clone complete"@,
                ..finish_phase_view(set_active_view(old(self)@, 4), 4)
            }),
            percents_bounded(old(self)@) ==> percents_bounded(final(self)@),
    {
        self.set_phase_active(4);
        self.finish_phase(4);
        self.set_message("Git clone complete");
    }

    /// A post-processing step begins (`msg` names it): the last phase becomes
    /// current.
    pub fn begin_post_step(&mut self, msg: &str)
        ensures
            final(self)@ == (StatusView { message: msg@, ..set_active_view(old(self)@, 5) }),
            percents_bounded(old(self)@) ==> percents_bounded(final(self)@),
    {
        self.set_phase_active(5);
        self.set_message(msg);
    }

    /// The clone is over: marked done with its outcome, and the message tells it.
    pub fn finish_clone(&mut self, success: bool)
        ensures
            final(self)@ == (StatusView {
                message: if success {
                    "Clone completed successfully"@
                } else {
                    "Clone failed"@
                },
                ..mark_done_view(old(self)@, success)
            }),
            final(self)@.done,
            final(self)@.success == success,
            percents_bounded(old(self)@) ==> percents_bounded(final(self)@),
    {
        self.mark_done(success);
        if success {
            self.set_message("Clone completed successfully");
        } else {
            self.set_message("Clone failed");
        }
    }

    /// Marks the clone as over. On success every phase not yet done becomes done
    /// at 100 percent; on failure they stay as they are.
    pub fn mark_done(&mut self, success: bool)
        ensures
            final(self)@ == mark_done_view(old(self)@, success),
            percents_bounded(old(self)@) ==> percents_bounded(final(self)@),
    {
        self.done = true;
        self.success = success;
        let mut i: usize = 0;
        while i < 6
            invariant
                i <= 6,
                self@.done,
                self@.success == success,
                forall|j: int|
                    0 <= j < i ==> (#[trigger] self.phases@[j])@ == mark_done_view(
                        old(self)@,
                        success,
                    ).phases[j],
                forall|j: int| i <= j < 6 ==> #[trigger] self.phases@[j] == old(self).phases@[j],
                self@.strategy == old(self)@.strategy,
                self@.url == old(self)@.url,
                self@.dest == old(self)@.dest,
                self@.speed == old(self)@.speed,
                self@.message == old(self)@.message,
                self@.current_phase == old(self)@.current_phase,
            decreases 6 - i,
        {
            if !self.phases[i].done {
                self.phases[i].percent = if success {
                    100
                } else {
                    self.phases[i].percent
                };
                self.phases[i].done = success;
            }
            i += 1;
        }
        assert(self@.phases =~= mark_done_view(old(self)@, success).phases);
    }
}

} // verus!

verus! {

// ---------------------------------------------------------------------------
// Reading git's progress output
// ---------------------------------------------------------------------------

/// The text of capture group `i`, empty when the group is absent.
pub open spec fn group_text(g: Seq<Option<Seq<char>>>, i: int) -> Seq<char> {
    if 0 <= i < g.len() {
        match g[i] {
            Some(t) => t,
            None => Seq::empty(),
        }
    } else {
        Seq::empty()
    }
}

/// A percent written as text, as a `u8`; 0 when the text is no such number.
pub open spec fn percent_value(t: Seq<char>) -> u8 {
    match parse_unsigned(t, 255) {
        Some(n) => n as u8,
        None => 0,
    }
}

/// A number written as text, as a `u64`; 0 when the text is no such number.
pub open spec fn count_value(t: Seq<char>) -> u64 {
    match parse_unsigned(t, u64::MAX as nat) {
        Some(n) => n as u64,
        None => 0,
    }
}

/// The text of capture group `i`, empty when the group is absent.
pub fn group_at(caps: &Vec<Option<String>>, i: usize) -> (t: String)
    ensures
        t@ == group_text(groups_view(caps@), i as int),
{
    if i < caps.len() {
        match &caps[i] {
            Some(x) => x.clone(),
            None => String::new(),
        }
    } else {
        String::new()
    }
}

/// A percent written as text (`text.parse::<u8>().unwrap_or(0)`).
pub fn percent_from_text(t: &str) -> (p: u8)
    ensures
        p == percent_value(t@),
{
    match crate::decimal::parse_unsigned_max(t, 255) {
        Some(n) => n as u8,
        None => 0,
    }
}

/// A number written as text (`text.parse::<u64>().unwrap_or(0)`).
pub fn count_from_text(t: &str) -> (n: u64)
    ensures
        n == count_value(t@),
{
    match crate::decimal::parse_unsigned_max(t, u64::MAX) {
        Some(n) => n,
        None => 0,
    }
}

/// A percent shown on the dashboard: at most 100.
pub open spec fn capped_percent(p: u8) -> u8 {
    if p < 100 {
        p
    } else {
        100
    }
}

/// The speed text of a "Receiving objects" match: amount, unit and "/s".
pub open spec fn receiving_speed(g: Seq<Option<Seq<char>>>) -> Seq<char> {
    group_text(g, 4) + " "@ + group_text(g, 5) + "/s"@
}

/// Which kind of progress line git wrote.
#[derive(Debug, Clone, Copy, PartialEq, Eq, Structural)]
pub enum GitLineKind {
    Receiving,
    Resolving,
    Counting,
    Compressing,
    Checkout,
    Other,
}

/// The kind of a progress line, by the first of its markers it contains.
pub open spec fn line_kind(line: Seq<char>) -> GitLineKind {
    if has_substring(line, "Receiving objects"@) {
        GitLineKind::Receiving
    } else if has_substring(line, "Resolving deltas"@) {
        GitLineKind::Resolving
    } else if has_substring(line, "Counting objects"@) {
        GitLineKind::Counting
    } else if has_substring(line, "Compressing objects"@) {
        GitLineKind::Compressing
    } else if has_substring(line, "Checking out files"@) || has_substring(line, "Updating files"@) {
        GitLineKind::Checkout
    } else {
        GitLineKind::Other
    }
}

/// The kind of a progress line.
pub fn git_line_kind(line: &str) -> (k: GitLineKind)
    ensures
        k == line_kind(line@),
{
    if contains_str(line, "Receiving objects") {
        GitLineKind::Receiving
    } else if contains_str(line, "Resolving deltas") {
        GitLineKind::Resolving
    } else if contains_str(line, "Counting objects") {
        GitLineKind::Counting
    } else if contains_str(line, "Compressing objects") {
        GitLineKind::Compressing
    } else if contains_str(line, "Checking out files") || contains_str(line, "Updating files") {
        GitLineKind::Checkout
    } else {
        GitLineKind::Other
    }
}

/// The regular expression that reads the numbers of a line of kind `k`, if any.
pub open spec fn kind_pattern(k: GitLineKind) -> Option<Seq<char>> {
    match k {
        GitLineKind::Receiving => Some(RECEIVING_PATTERN@),
        GitLineKind::Resolving => Some(RESOLVING_PATTERN@),
        GitLineKind::Counting => Some(COUNTING_PATTERN@),
        GitLineKind::Compressing => Some(COMPRESSING_PATTERN@),
        _ => None,
    }
}

/// The regular expression for a line of kind `k`, if any.
pub fn pattern_for(k: GitLineKind) -> (p: Option<&'static str>)
    ensures
        match p {
            Some(x) => kind_pattern(k) == Some(x@),
            None => kind_pattern(k) is None,
        },
{
    match k {
        GitLineKind::Receiving => Some(RECEIVING_PATTERN),
        GitLineKind::Resolving => Some(RESOLVING_PATTERN),
        GitLineKind::Counting => Some(COUNTING_PATTERN),
        GitLineKind::Compressing => Some(COMPRESSING_PATTERN),
        _ => None,
    }
}

/// The capture groups of `line` for a line of kind `k`: none when the kind has no
/// regular expression or it does not match.
pub open spec fn line_captures(k: GitLineKind, line: Seq<char>) -> Option<Seq<Option<Seq<char>>>> {
    match kind_pattern(k) {
        Some(pat) => regex_captures_of(pat, line),
        None => None,
    }
}

/// How a progress line of kind `k`, whose numbers were read as the groups `g`,
/// changes the dashboard.
pub open spec fn git_match_effect(
    s: StatusView,
    k: GitLineKind,
    g: Option<Seq<Option<Seq<char>>>>,
) -> StatusView {
    match k {
        GitLineKind::Receiving => {
            let a = set_active_view(s, 1);
            match g {
                Some(g) => set_percent_view(
                    StatusView { speed: receiving_speed(g), ..a },
                    1,
                    percent_value(group_text(g, 1)),
                    receiving_speed(g),
                ),
                None => a,
            }
        },
        GitLineKind::Resolving => {
            let a = set_active_view(s, 2);
            match g {
                Some(g) => set_percent_view(a, 2, percent_value(group_text(g, 1)), Seq::empty()),
                None => a,
            }
        },
        GitLineKind::Counting => {
            let a = set_active_view(s, 0);
            match g {
                Some(g) => set_percent_view(a, 0, percent_value(group_text(g, 1)), "counting"@),
                None => a,
            }
        },
        GitLineKind::Compressing => {
            let a = set_active_view(s, 0);
            match g {
                Some(g) => set_percent_view(a, 0, percent_value(group_text(g, 1)), "compressing"@),
                None => a,
            }
        },
        GitLineKind::Checkout => set_percent_view(set_active_view(s, 4), 4, 50, "checkout"@),
        GitLineKind::Other => s,
    }
}

/// How one line of git's progress output changes the dashboard.
pub open spec fn git_line_effect(s: StatusView, line: Seq<char>) -> StatusView {
    git_match_effect(s, line_kind(line), line_captures(line_kind(line), line))
}

/// The speed text of a "Receiving objects" match.
fn speed_text(caps: &Vec<Option<String>>) -> (t: String)
    ensures
        t@ == receiving_speed(groups_view(caps@)),
{
    let amount = group_at(caps, 4);
    let unit = group_at(caps, 5);
    let mut t = amount;
    t.append(" ");
    t.append(unit.as_str());
    t.append("/s");
    t
}

/// Updates the dashboard from a progress line of kind `kind` whose numbers were
/// read as the capture groups `caps` (`None` when nothing was read).
pub fn apply_git_match(status: &mut CloneStatus, kind: GitLineKind, caps: &Option<Vec<Option<String>>>)
    ensures
        final(status)@ == git_match_effect(old(status)@, kind, captures_view(*caps)),
        percents_bounded(old(status)@) ==> percents_bounded(final(status)@),
        // the phase of the line's kind becomes the current one
        kind == GitLineKind::Receiving ==> final(status)@.current_phase == 1,
        kind == GitLineKind::Resolving ==> final(status)@.current_phase == 2,
        kind == GitLineKind::Counting || kind == GitLineKind::Compressing ==> final(status)@.current_phase == 0,
        // its percent is the number before `%` (group 1), capped at 100
        caps matches Some(c) ==> (kind == GitLineKind::Receiving ==> final(status)@.phases[1].percent
            == capped_percent(percent_value(group_text(groups_view(c@), 1)))
            && final(status)@.speed == group_text(groups_view(c@), 4) + " "@ + group_text(
            groups_view(c@),
            5,
        ) + "/s"@ && final(status)@.phases[1].detail == final(status)@.speed),
        caps matches Some(c) ==> (kind == GitLineKind::Resolving ==> final(status)@.phases[2].percent
            == capped_percent(percent_value(group_text(groups_view(c@), 1)))),
        caps matches Some(c) ==> (kind == GitLineKind::Counting ==> final(status)@.phases[0].percent
            == capped_percent(percent_value(group_text(groups_view(c@), 1)))
            && final(status)@.phases[0].detail == "counting"@),
        caps matches Some(c) ==> (kind == GitLineKind::Compressing ==> final(status)@.phases[0].percent == capped_percent(percent_value(group_text(groups_view(c@), 1)))
            && final(status)@.phases[0].detail == "compressing"@),
        // without numbers, no percent changes
        caps is None && kind != GitLineKind::Checkout ==> forall|i: int|
            0 <= i < 6 ==> #[trigger] final(status)@.phases[i].percent == old(status)@.phases[i].percent,
        // checking out files is shown half done
        kind == GitLineKind::Checkout ==> final(status)@.current_phase == 4 && final(status)@.phases[4].percent == 50 && final(status)@.phases[4].detail == "checkout"@,
        kind == GitLineKind::Other ==> final(status)@ == old(status)@,
{
    match kind {
        GitLineKind::Receiving => {
            status.set_phase_active(1);
            match caps {
                Some(c) => {
                    let pct = percent_from_text(group_at(c, 1).as_str());
                    let speed = speed_text(c);
                    status.set_speed(speed.as_str());
                    status.set_phase_percent(1, pct, speed.as_str());
                },
                None => {},
            }
        },
        GitLineKind::Resolving => {
            status.set_phase_active(2);
            match caps {
                Some(c) => {
                    let pct = percent_from_text(group_at(c, 1).as_str());
                    proof {
                        reveal_strlit("");
                        assert(""@ =~= Seq::<char>::empty());
                    }
                    status.set_phase_percent(2, pct, "");
                },
                None => {},
            }
        },
        GitLineKind::Counting => {
            status.set_phase_active(0);
            match caps {
                Some(c) => {
                    let pct = percent_from_text(group_at(c, 1).as_str());
                    status.set_phase_percent(0, pct, "counting");
                },
                None => {},
            }
        },
        GitLineKind::Compressing => {
            status.set_phase_active(0);
            match caps {
                Some(c) => {
                    let pct = percent_from_text(group_at(c, 1).as_str());
                    status.set_phase_percent(0, pct, "compressing");
                },
                None => {},
            }
        },
        GitLineKind::Checkout => {
            status.set_phase_active(4);
            status.set_phase_percent(4, 50, "checkout");
        },
        GitLineKind::Other => {},
    }
}

/// The capture groups of `line` for a line of kind `k`.
pub(crate) fn read_line_captures(k: GitLineKind, line: &str) -> (r: Option<Vec<Option<String>>>)
    ensures
        captures_view(r) == line_captures(k, line@),
{
    match pattern_for(k) {
        Some(pat) => regex_captures(pat, line),
        None => None,
    }
}

/// Updates the dashboard from one line of git's progress output: the phase the
/// line belongs to becomes the current one and gets the percent the line reports.
pub fn apply_git_line(status: &mut CloneStatus, line: &str)
    ensures
        final(status)@ == git_line_effect(old(status)@, line@),
        percents_bounded(old(status)@) ==> percents_bounded(final(status)@),
        // a "Receiving objects" line: group 1 of its pattern is the percent of phase 1
        has_substring(line@, "Receiving objects"@) ==> (regex_captures_of(RECEIVING_PATTERN@, line@)
            matches Some(g) ==> final(status)@.current_phase == 1 && final(status)@.phases[1].percent
            == capped_percent(percent_value(group_text(g, 1)))),
        // a "Resolving deltas" line: group 1 is the percent of phase 2
        !has_substring(line@, "Receiving objects"@) && has_substring(line@, "Resolving deltas"@) ==> (
        regex_captures_of(RESOLVING_PATTERN@, line@) matches Some(g) ==> final(status)@.current_phase
            == 2 && final(status)@.phases[2].percent == capped_percent(
            percent_value(group_text(g, 1)),
        )),
        // a "Counting objects" line: group 1 is the percent of phase 0
        !has_substring(line@, "Receiving objects"@) && !has_substring(line@, "Resolving deltas"@)
            && has_substring(line@, "Counting objects"@) ==> (regex_captures_of(
            COUNTING_PATTERN@,
            line@,
        ) matches Some(g) ==> final(status)@.current_phase == 0 && final(status)@.phases[0].percent
            == capped_percent(percent_value(group_text(g, 1))) && final(status)@.phases[0].detail
            == "counting"@),
        // a "Compressing objects" line: group 1 is the percent of phase 0
        !has_substring(line@, "Receiving objects"@) && !has_substring(line@, "Resolving deltas"@)
            && !has_substring(line@, "Counting objects"@) && has_substring(
            line@,
            "Compressing objects"@,
        ) ==> (regex_captures_of(COMPRESSING_PATTERN@, line@) matches Some(g) ==> final(status)@.current_phase == 0 && final(status)@.phases[0].percent == capped_percent(
            percent_value(group_text(g, 1)),
        ) && final(status)@.phases[0].detail == "compressing"@),
{
    let kind = git_line_kind(line);
    let caps = read_line_captures(kind, line);
    apply_git_match(status, kind, &caps);
}

/// The percent of `current` out of `total`, at most 100; 0 when `total` is 0.
pub open spec fn lfs_percent(current: u64, total: u64) -> u8 {
    if total > 0 {
        let p = (current * 100) / (total as int);
        if p < 100 {
            p as u8
        } else {
            100
        }
    } else {
        0
    }
}

/// Updates the dashboard with LFS download progress: the LFS phase becomes the
/// current one, with the share of `current` in `total` as its percent.
pub fn apply_lfs_progress(status: &mut CloneStatus, current: u64, total: u64, msg: &str)
    requires
        current * 100 <= u64::MAX,
    ensures
        final(status)@ == set_percent_view(
            set_active_view(old(status)@, 3),
            3,
            lfs_percent(current, total),
            msg@,
        ),
        percents_bounded(old(status)@) ==> percents_bounded(final(status)@),
        // the LFS phase is current and shows the share done, in whole percent
        final(status)@.current_phase == 3,
        final(status)@.phases[3].detail == msg@,
        total == 0 ==> final(status)@.phases[3].percent == 0,
        total > 0 && current >= total ==> final(status)@.phases[3].percent == 100,
        total > 0 && current < total ==> final(status)@.phases[3].percent * total <= current * 100
            < (final(status)@.phases[3].percent + 1) * total,
{
    proof {
        law_lfs_percent_is_the_share(current, total);
    }
    status.set_phase_active(3);
    let pct: u8 = if total > 0 {
        let p = (current * 100) / total;
        if p < 100 {
            p as u8
        } else {
            100
        }
    } else {
        0
    };
    status.set_phase_percent(3, pct, msg);
}

} // verus!

verus! {

/// A clone that ends well shows every phase done at 100 percent, and a failed
/// one leaves the phases' percents as they were; either way the bound on percents
/// still holds.
pub proof fn law_mark_done(s: StatusView, success: bool)
    requires
        percents_bounded(s),
    ensures
        mark_done_view(s, success).done,
        mark_done_view(s, success).success == success,
        percents_bounded(mark_done_view(s, success)),
        success ==> forall|i: int|
            0 <= i < s.phases.len() ==> (#[trigger] mark_done_view(s, success).phases[i]).done
                && (s.phases[i].done || mark_done_view(s, success).phases[i].percent == 100),
        !success ==> forall|i: int|
            0 <= i < s.phases.len() ==> (#[trigger] mark_done_view(s, success).phases[i]).percent
                == s.phases[i].percent,
{
}

/// A line that reports "Counting objects" (and neither receiving nor resolving)
/// sets phase 0 to the number before `%` that its pattern reads (group 1),
/// capped at 100, and makes phase 0 the current one.
pub proof fn law_counting_line_sets_its_percent(
    s: StatusView,
    line: Seq<char>,
    g: Seq<Option<Seq<char>>>,
)
    requires
        s.phases.len() == PHASE_COUNT,
        !has_substring(line, "Receiving objects"@),
        !has_substring(line, "Resolving deltas"@),
        has_substring(line, "Counting objects"@),
        regex_captures_of(COUNTING_PATTERN@, line) == Some(g),
    ensures
        git_line_effect(s, line).current_phase == 0,
        git_line_effect(s, line).phases[0].percent == capped_percent(percent_value(group_text(g, 1))),
        git_line_effect(s, line).phases[0].detail == "counting"@,
        forall|i: int|
            1 <= i < PHASE_COUNT ==> #[trigger] git_line_effect(s, line).phases[i].percent
                == s.phases[i].percent,
{
}

/// The percent read from a number written in decimal is that number, for every
/// number a `u8` holds.
pub proof fn law_percent_reads_the_number(n: nat)
    requires
        n <= 255,
    ensures
        percent_value(decimal(n)) == n,
{
    law_decimal_round_trip(n, 255);
}

/// The LFS percent is the share of `current` in `total` rounded down: 0 without
/// a total, 100 once everything is there, otherwise the largest whole percent
/// not above the share.
pub proof fn law_lfs_percent_is_the_share(current: u64, total: u64)
    requires
        current * 100 <= u64::MAX,
    ensures
        total == 0 ==> lfs_percent(current, total) == 0,
        total > 0 && current >= total ==> lfs_percent(current, total) == 100,
        total > 0 && current < total ==> lfs_percent(current, total) * total <= current * 100 < (
        lfs_percent(current, total) + 1) * total,
{
    if total > 0 {
        let p = (current * 100) / (total as int);
        assert(p * total <= current * 100 < (p + 1) * total) by (nonlinear_arith)
            requires
                total > 0,
                p == (current * 100) / (total as int),
                current * 100 >= 0,
        ;
        if current >= total {
            assert(p >= 100) by (nonlinear_arith)
                requires
                    current >= total,
                    total > 0,
                    p == (current * 100) / (total as int),
            ;
        } else {
            assert(p < 100) by (nonlinear_arith)
                requires
                    current < total,
                    total > 0,
                    p == (current * 100) / (total as int),
                    p * total <= current * 100,
            ;
        }
    }
}

/// Making phase `i` current leaves exactly the phases before it done, whatever was
/// done before.
pub proof fn law_set_active_marks_earlier_done(s: StatusView, index: usize)
    ensures
        set_active_view(s, index).current_phase == index,
        forall|i: int|
            0 <= i < s.phases.len() ==> ((#[trigger] set_active_view(s, index).phases[i]).done
                <==> i < index),
        forall|i: int|
            0 <= i < s.phases.len() ==> (#[trigger] set_active_view(s, index).phases[i]).percent
                == s.phases[i].percent,
{
}

} // verus!
