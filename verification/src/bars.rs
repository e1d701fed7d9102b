use vstd::prelude::*;
use crate::decimal::{decimal, decimal_string};
use crate::outside::{captures_view, groups_view, regex_captures_of};
use crate::progress::{
    count_from_text, count_value, git_line_kind, group_at, group_text, line_captures, line_kind,
    read_line_captures, receiving_speed, GitLineKind, COUNTING_PATTERN, RECEIVING_PATTERN,
    RESOLVING_PATTERN,
};
use crate::text::{concat2, concat3, has_substring, owned};

verus! {

/// One progress bar of the terminal display: what it shows.
#[derive(Debug)]
pub struct BarState {
    /// The message next to the bar
    pub message: String,
    /// The position reached
    pub position: u64,
    /// The length of the bar; `None` for a spinner
    pub length: Option<u64>,
    /// The bar was finished and cleared
    pub finished: bool,
    /// The spinner ticks on its own
    pub ticking: bool,
}

/// The plain values of a bar.
pub struct BarView {
    pub message: Seq<char>,
    pub position: u64,
    pub length: Option<u64>,
    pub finished: bool,
    pub ticking: bool,
}

impl View for BarState {
    type V = BarView;

    open spec fn view(&self) -> BarView {
        BarView {
            message: self.message@,
            position: self.position,
            length: self.length,
            finished: self.finished,
            ticking: self.ticking,
        }
    }
}

/// The six-step progress display of a clone in the terminal: negotiating,
/// receiving, resolving, LFS, checkout, post-processing. The display itself
/// (and the time the clone started) belongs to whoever draws these bars.
#[derive(Debug)]
pub struct CloneProgress {
    pub steps: [BarState; 6],
    pub current_step: usize,
}

/// The plain values of the display.
pub struct ProgressView {
    pub bars: Seq<BarView>,
    pub current_step: usize,
}

impl View for CloneProgress {
    type V = ProgressView;

    open spec fn view(&self) -> ProgressView {
        ProgressView {
            bars: self.steps@.map_values(|b: BarState| b@),
            current_step: self.current_step,
        }
    }
}

/// Bar `i` with `f` applied.
pub open spec fn with_bar(p: ProgressView, i: int, b: BarView) -> ProgressView {
    ProgressView { bars: p.bars.update(i, b), ..p }
}

/// Bar `i` finished.
pub open spec fn finish_bar(p: ProgressView, i: int) -> ProgressView {
    with_bar(p, i, BarView { finished: true, ..p.bars[i] })
}

/// Bar `i` with message `m`.
pub open spec fn message_bar(p: ProgressView, i: int, m: Seq<char>) -> ProgressView {
    with_bar(p, i, BarView { message: m, ..p.bars[i] })
}

/// Bar `i` at position `pos`.
pub open spec fn position_bar(p: ProgressView, i: int, pos: u64) -> ProgressView {
    with_bar(p, i, BarView { position: pos, ..p.bars[i] })
}

pub open spec fn receiving_view(p: ProgressView) -> ProgressView {
    ProgressView {
        current_step: 1,
        ..message_bar(finish_bar(p, 0), 1, "[2/6] Receiving objects"@)
    }
}

pub open spec fn resolving_view(p: ProgressView) -> ProgressView {
    if p.current_step < 2 {
        ProgressView {
            current_step: 2,
            ..message_bar(finish_bar(p, 1), 2, "[3/6] Resolving deltas"@)
        }
    } else {
        p
    }
}

pub open spec fn checkout_view(p: ProgressView) -> ProgressView {
    ProgressView {
        current_step: 4,
        ..position_bar(
            message_bar(finish_bar(finish_bar(finish_bar(p, 1), 2), 3), 4, "[5/6] Checking out files"@),
            4,
            50,
        )
    }
}

pub open spec fn finish_checkout_view(p: ProgressView) -> ProgressView {
    finish_bar(position_bar(p, 4, 100), 4)
}

pub open spec fn post_processing_view(p: ProgressView) -> ProgressView {
    ProgressView {
        current_step: 5,
        ..with_bar(
            p,
            5,
            BarView {
                message: "[6/6] Post-processing (config, hooks)"@,
                ticking: true,
                ..p.bars[5]
            },
        )
    }
}

pub open spec fn lfs_view(p: ProgressView, current: u64, total: u64, msg: Seq<char>) -> ProgressView {
    let a = if p.current_step < 3 {
        resolving_view(p)
    } else {
        p
    };
    let len = match a.bars[3].length {
        Some(l) => l,
        None => 0,
    };
    let b = if len == 0 && total > 0 {
        with_bar(
            a,
            3,
            BarView { length: Some(total), message: "[4/6] LFS files"@, ..a.bars[3] },
        )
    } else {
        a
    };
    let c = position_bar(
        b,
        3,
        if current < total {
            current
        } else {
            total
        },
    );
    if msg.len() > 0 {
        message_bar(c, 3, "[4/6] LFS files - "@ + msg)
    } else {
        c
    }
}

pub open spec fn finish_lfs_view(p: ProgressView) -> ProgressView {
    let len = match p.bars[3].length {
        Some(l) => l,
        None => 0,
    };
    finish_bar(
        if len > 0 {
            position_bar(p, 3, len)
        } else {
            p
        },
        3,
    )
}

/// How a progress line of kind `k`, whose numbers were read as the groups `g`,
/// changes the display.
pub open spec fn match_view(p: ProgressView, k: GitLineKind, g: Option<Seq<Option<Seq<char>>>>) -> ProgressView {
    match k {
        GitLineKind::Receiving => {
            let a = receiving_view(p);
            match g {
                Some(g) => message_bar(
                    position_bar(a, 1, count_value(group_text(g, 1))),
                    1,
                    "[2/6] Receiving objects ("@ + receiving_speed(g) + ")"@,
                ),
                None => a,
            }
        },
        GitLineKind::Resolving => {
            let a = resolving_view(p);
            match g {
                Some(g) => position_bar(a, 2, count_value(group_text(g, 1))),
                None => a,
            }
        },
        GitLineKind::Counting => match g {
            Some(g) => message_bar(
                p,
                0,
                "[1/6] Counting objects ("@ + decimal(count_value(group_text(g, 1)) as nat) + "%)"@,
            ),
            None => p,
        },
        GitLineKind::Compressing => match g {
            Some(g) => message_bar(
                p,
                0,
                "[1/6] Compressing objects ("@ + decimal(count_value(group_text(g, 1)) as nat)
                    + "%)"@,
            ),
            None => p,
        },
        GitLineKind::Checkout => checkout_view(p),
        GitLineKind::Other => p,
    }
}

/// How one line of git's progress output changes the display.
pub open spec fn line_view(p: ProgressView, line: Seq<char>) -> ProgressView {
    match_view(p, line_kind(line), line_captures(line_kind(line), line))
}

fn bar(message: String, length: Option<u64>, ticking: bool) -> (b: BarState)
    ensures
        b@ == (BarView { message: message@, position: 0, length, finished: false, ticking }),
{
    BarState { message, position: 0, length, finished: false, ticking }
}

impl CloneProgress {
    /// A display at the start of a clone: negotiating, with its spinner ticking.
    pub fn new() -> (p: CloneProgress)
        ensures
            p@.current_step == 0,
            p@.bars.len() == 6,
            p@.bars[0] == (BarView {
                message: "[1/6] Negotiating refs with remote..."@,
                position: 0,
                length: None,
                finished: false,
                ticking: true,
            }),
            forall|i: int|
                1 <= i <= 4 ==> #[trigger] p@.bars[i] == (BarView {
                    message: Seq::empty(),
                    position: 0,
                    length: Some(100),
                    finished: false,
                    ticking: false,
                }),
            p@.bars[5] == (BarView {
                message: Seq::empty(),
                position: 0,
                length: None,
                finished: false,
                ticking: false,
            }),
    {
        CloneProgress {
            steps: [
                bar(owned("[1/6] Negotiating refs with remote..."), None, true),
                bar(String::new(), Some(100), false),
                bar(String::new(), Some(100), false),
                bar(String::new(), Some(100), false),
                bar(String::new(), Some(100), false),
                bar(String::new(), None, false),
            ],
            current_step: 0,
        }
    }

    /// Negotiation is over; objects are being received.
    pub fn advance_to_receiving(&mut self)
        ensures
            final(self)@ == receiving_view(old(self)@),
    {
        self.steps[0].finished = true;
        self.steps[1].message = owned("[2/6] Receiving objects");
        self.current_step = 1;
        assert(self@.bars =~= receiving_view(old(self)@).bars);
    }

    /// Receiving is over; deltas are being resolved (unless that step was already
    /// reached).
    pub fn advance_to_resolving(&mut self)
        ensures
            final(self)@ == resolving_view(old(self)@),
    {
        if self.current_step < 2 {
            self.steps[1].finished = true;
            self.steps[2].message = owned("[3/6] Resolving deltas");
            self.current_step = 2;
            assert(self@.bars =~= resolving_view(old(self)@).bars);
        }
    }

    /// Files are being checked out: the steps before are cleared.
    pub fn advance_to_checkout(&mut self)
        ensures
            final(self)@ == checkout_view(old(self)@),
    {
        self.steps[1].finished = true;
        self.steps[2].finished = true;
        self.steps[3].finished = true;
        self.steps[4].message = owned("[5/6] Checking out files");
        self.steps[4].position = 50;
        self.current_step = 4;
        assert(self@.bars =~= checkout_view(old(self)@).bars);
    }

    /// Checkout is complete.
    pub fn finish_checkout(&mut self)
        ensures
            final(self)@ == finish_checkout_view(old(self)@),
    {
        self.steps[4].position = 100;
        self.steps[4].finished = true;
        assert(self@.bars =~= finish_checkout_view(old(self)@).bars);
    }

    /// Post-processing (configuration, hooks, LFS) has begun.
    pub fn start_post_processing(&mut self)
        ensures
            final(self)@ == post_processing_view(old(self)@),
    {
        self.steps[5].message = owned("[6/6] Post-processing (config, hooks)");
        self.steps[5].ticking = true;
        self.current_step = 5;
        assert(self@.bars =~= post_processing_view(old(self)@).bars);
    }

    /// Post-processing is over.
    pub fn finish_post_processing(&mut self)
        ensures
            final(self)@ == finish_bar(old(self)@, 5),
    {
        self.steps[5].finished = true;
        assert(self@.bars =~= finish_bar(old(self)@, 5).bars);
    }

    /// Shows LFS download progress: `current` of `total` (capped at `total`), with
    /// `msg` when it is not empty.
    pub fn set_lfs_progress(&mut self, current: u64, total: u64, msg: &str)
        ensures
            final(self)@ == lfs_view(old(self)@, current, total, msg@),
    {
        if self.current_step < 3 {
            self.advance_to_resolving();
        }
        let len = match self.steps[3].length {
            Some(l) => l,
            None => 0,
        };
        if len == 0 && total > 0 {
            self.steps[3].length = Some(total);
            self.steps[3].message = owned("[4/6] LFS files");
        }
        self.steps[3].position = if current < total {
            current
        } else {
            total
        };
        if msg.unicode_len() > 0 {
            self.steps[3].message = concat2("[4/6] LFS files - ", msg);
        }
        assert(self@.bars =~= lfs_view(old(self)@, current, total, msg@).bars);
    }

    /// LFS download is over: the bar is filled (if it has a length) and cleared.
    pub fn finish_lfs(&mut self)
        ensures
            final(self)@ == finish_lfs_view(old(self)@),
    {
        let len = match self.steps[3].length {
            Some(l) => l,
            None => 0,
        };
        if len > 0 {
            self.steps[3].position = len;
        }
        self.steps[3].finished = true;
        assert(self@.bars =~= finish_lfs_view(old(self)@).bars);
    }

    /// Updates the display from a progress line of kind `kind` whose numbers were
    /// read as the capture groups `caps` (`None` when nothing was read).
    pub fn apply_match(&mut self, kind: GitLineKind, caps: &Option<Vec<Option<String>>>)
        ensures
            final(self)@ == match_view(old(self)@, kind, captures_view(*caps)),
            // receiving: negotiation is over and step 2 is current
            kind == GitLineKind::Receiving ==> final(self)@.current_step == 1 && final(self)@.bars[0].finished,
            // the numbers read: the percent before `%` (group 1) is the bar's position
            caps matches Some(c) ==> (kind == GitLineKind::Receiving ==> final(self)@.bars[1].position
                == count_value(group_text(groups_view(c@), 1)) && final(self)@.bars[1].message
                == "[2/6] Receiving objects ("@ + group_text(groups_view(c@), 4) + " "@
                + group_text(groups_view(c@), 5) + "/s)"@),
            caps matches Some(c) ==> (kind == GitLineKind::Resolving ==> final(self)@.bars[2].position
                == count_value(group_text(groups_view(c@), 1))),
            caps matches Some(c) ==> (kind == GitLineKind::Counting ==> final(self)@.bars[0].message
                == "[1/6] Counting objects ("@ + decimal(count_value(group_text(groups_view(c@), 1)) as nat)
                + "%)"@),
            caps matches Some(c) ==> (kind == GitLineKind::Compressing ==> final(self)@.bars[0].message
                == "[1/6] Compressing objects ("@ + decimal(
                count_value(group_text(groups_view(c@), 1)) as nat,
            ) + "%)"@),
            // checking out: the earlier transfer bars are cleared, checkout is half way
            kind == GitLineKind::Checkout ==> final(self)@.current_step == 4 && final(self)@.bars[4].position
                == 50 && final(self)@.bars[1].finished && final(self)@.bars[2].finished && final(self)@.bars[3].finished,
            kind == GitLineKind::Other ==> final(self)@ == old(self)@,
    {
        match kind {
            GitLineKind::Receiving => {
                self.advance_to_receiving();
                match caps {
                    Some(c) => {
                        let pct = count_from_text(group_at(c, 1).as_str());
                        let amount = group_at(c, 4);
                        let unit = group_at(c, 5);
                        let mut m = owned("[2/6] Receiving objects (");
                        m.append(amount.as_str());
                        m.append(" ");
                        m.append(unit.as_str());
                        m.append("/s");
                        m.append(")");
                        assert(m@ =~= "[2/6] Receiving objects ("@ + receiving_speed(
                            groups_view(c@),
                        ) + ")"@);
                        proof {
                            reveal_strlit("/s)");
                            reveal_strlit("/s");
                            reveal_strlit(")");
                        }
                        assert(m@ =~= "[2/6] Receiving objects ("@ + group_text(groups_view(c@), 4)
                            + " "@ + group_text(groups_view(c@), 5) + "/s)"@);
                        self.steps[1].position = pct;
                        self.steps[1].message = m;
                        assert(self@.bars =~= match_view(old(self)@, kind, captures_view(*caps)).bars);
                    },
                    None => {},
                }
            },
            GitLineKind::Resolving => {
                self.advance_to_resolving();
                match caps {
                    Some(c) => {
                        let pct = count_from_text(group_at(c, 1).as_str());
                        self.steps[2].position = pct;
                        assert(self@.bars =~= match_view(old(self)@, kind, captures_view(*caps)).bars);
                    },
                    None => {},
                }
            },
            GitLineKind::Counting => {
                match caps {
                    Some(c) => {
                        let pct = count_from_text(group_at(c, 1).as_str());
                        let n = decimal_string(pct);
                        self.steps[0].message = concat3("[1/6] Counting objects (", n.as_str(), "%)");
                        assert(self@.bars =~= match_view(old(self)@, kind, captures_view(*caps)).bars);
                    },
                    None => {},
                }
            },
            GitLineKind::Compressing => {
                match caps {
                    Some(c) => {
                        let pct = count_from_text(group_at(c, 1).as_str());
                        let n = decimal_string(pct);
                        self.steps[0].message = concat3(
                            "[1/6] Compressing objects (",
                            n.as_str(),
                            "%)",
                        );
                        assert(self@.bars =~= match_view(old(self)@, kind, captures_view(*caps)).bars);
                    },
                    None => {},
                }
            },
            GitLineKind::Checkout => {
                self.advance_to_checkout();
            },
            GitLineKind::Other => {},
        }
    }

    /// Updates the display from one line of git's progress output.
    pub fn process_line(&mut self, line: &str)
        ensures
            final(self)@ == line_view(old(self)@, line@),
            // a "Receiving objects" line: group 1 of its pattern is bar 1's position
            has_substring(line@, "Receiving objects"@) ==> (regex_captures_of(RECEIVING_PATTERN@, line@)
                matches Some(g) ==> final(self)@.current_step == 1 && final(self)@.bars[1].position
                == count_value(group_text(g, 1))),
            // a "Resolving deltas" line: group 1 is bar 2's position
            !has_substring(line@, "Receiving objects"@) && has_substring(line@, "Resolving deltas"@) ==> (
            regex_captures_of(RESOLVING_PATTERN@, line@) matches Some(g) ==> final(self)@.bars[2].position
                == count_value(group_text(g, 1))),
            // a "Counting objects" line: bar 0 shows group 1 as a percent
            !has_substring(line@, "Receiving objects"@) && !has_substring(line@, "Resolving deltas"@)
                && has_substring(line@, "Counting objects"@) ==> (regex_captures_of(
                COUNTING_PATTERN@,
                line@,
            ) matches Some(g) ==> final(self)@.bars[0].message == "[1/6] Counting objects ("@ + decimal(
                count_value(group_text(g, 1)) as nat,
            ) + "%)"@),
    {
        let kind = git_line_kind(line);
        let caps = read_line_captures(kind, line);
        self.apply_match(kind, &caps);
    }
}

} // verus!

verus! {

/// `n` in decimal, padded with a zero to at least two digits (`{:02}`).
pub open spec fn two_digits(n: nat) -> Seq<char> {
    if n < 10 {
        "0"@ + decimal(n)
    } else {
        decimal(n)
    }
}

/// The closing line of a clone in the terminal: the elapsed time in minutes and
/// seconds, the strategy and the destination.
pub open spec fn summary_line_of(elapsed_secs: nat, dest: Seq<char>, strategy: Seq<char>) -> Seq<char> {
    "Total time: "@ + decimal(elapsed_secs / 60) + "m "@ + two_digits(elapsed_secs % 60)
        + "s  |  Strategy: "@ + strategy + "  |  Destination: "@ + dest
}

/// The closing line shows the time as whole minutes and seconds under 60 (two
/// digits) that add up to it, however many hours it took.
pub proof fn law_summary_adds_up(elapsed_secs: nat, dest: Seq<char>, strategy: Seq<char>)
    ensures
        exists|m: nat, sec: nat|
            #![trigger decimal(m), decimal(sec)]
            sec < 60 && m * 60 + sec == elapsed_secs && summary_line_of(elapsed_secs, dest, strategy)
                == "Total time: "@ + decimal(m) + "m "@ + (if sec < 10 {
                "0"@
            } else {
                Seq::<char>::empty()
            }) + decimal(sec) + "s  |  Strategy: "@ + strategy + "  |  Destination: "@ + dest,
{
    let m = elapsed_secs / 60;
    let sec = elapsed_secs % 60;
    assert(m * 60 + sec == elapsed_secs);
    if sec < 10 {
        assert(two_digits(sec) == "0"@ + decimal(sec));
    } else {
        assert(Seq::<char>::empty() + decimal(sec) =~= decimal(sec));
    }
    assert(summary_line_of(elapsed_secs, dest, strategy) =~= "Total time: "@ + decimal(m) + "m "@ + (
    if sec < 10 {
        "0"@
    } else {
        Seq::<char>::empty()
    }) + decimal(sec) + "s  |  Strategy: "@ + strategy + "  |  Destination: "@ + dest);
}

/// The closing line of a clone, given the whole seconds it took.
pub fn summary_line(elapsed_secs: u64, dest: &str, strategy: &str) -> (l: String)
    ensures
        l@ == summary_line_of(elapsed_secs as nat, dest@, strategy@),
        // the minutes and the seconds (under 60, two digits) shown add up to the time
        exists|m: nat, sec: nat|
            #![trigger decimal(m), decimal(sec)]
            sec < 60 && m * 60 + sec == elapsed_secs && l@ == "Total time: "@ + decimal(m) + "m "@
                + (if sec < 10 {
                "0"@
            } else {
                Seq::<char>::empty()
            }) + decimal(sec) + "s  |  Strategy: "@ + strategy@ + "  |  Destination: "@ + dest@,
{
    let mins = decimal_string(elapsed_secs / 60);
    let secs = elapsed_secs % 60;
    let s = decimal_string(secs);
    let mut l = owned("Total time: ");
    l.append(mins.as_str());
    l.append("m ");
    let ghost before = l@;
    if secs < 10 {
        l.append("0");
    }
    l.append(s.as_str());
    assert(l@ =~= before + two_digits(elapsed_secs as nat % 60));
    l.append("s  |  Strategy: ");
    l.append(strategy);
    l.append("  |  Destination: ");
    l.append(dest);
    proof {
        law_summary_adds_up(elapsed_secs as nat, dest@, strategy@);
    }
    l
}

} // verus!
