use vstd::prelude::*;
use crate::decimal::{decimal, decimal_string};
use crate::progress::{CloneStatus, PhaseStatus};
use crate::text::{bytes_of, concat2, concat3, owned, split_at_byte, utf8_text};

verus! {

/// How a phase is coloured on the dashboard.
#[derive(Debug, Clone, Copy, PartialEq, Eq, Structural)]
pub enum PhaseColor {
    /// Done (green)
    Done,
    /// The current phase (yellow)
    Current,
    /// Not reached (dark gray)
    Waiting,
}

/// The colour of phase `i`: done, else current, else waiting.
pub fn phase_color(status: &CloneStatus, i: usize) -> (c: PhaseColor)
    requires
        i < 6,
    ensures
        c == (if status.phases@[i as int].done {
            PhaseColor::Done
        } else if i == status.current_phase {
            PhaseColor::Current
        } else {
            PhaseColor::Waiting
        }),
{
    if status.phases[i].done {
        PhaseColor::Done
    } else if i == status.current_phase {
        PhaseColor::Current
    } else {
        PhaseColor::Waiting
    }
}

/// The label of phase `i` (counting from 0): its number out of six, its name, and
/// its detail in parentheses when there is one.
pub open spec fn phase_label_of(i: nat, name: Seq<char>, detail: Seq<char>) -> Seq<char> {
    "["@ + decimal(i + 1) + "/6] "@ + name + " "@ + if detail.len() == 0 {
        Seq::empty()
    } else {
        "("@ + detail + ")"@
    }
}

/// The label of phase `i` (counting from 0).
pub fn phase_label(i: usize, phase: &PhaseStatus) -> (l: String)
    requires
        i < 6,
    ensures
        l@ == phase_label_of(i as nat, phase.name@, phase.detail@),
{
    let n = decimal_string((i + 1) as u64);
    let mut l = owned("[");
    l.append(n.as_str());
    l.append("/6] ");
    l.append(phase.name.as_str());
    l.append(" ");
    if phase.detail.unicode_len() == 0 {
        assert(l@ + Seq::<char>::empty() =~= l@);
    } else {
        let ghost before = l@;
        l.append("(");
        l.append(phase.detail.as_str());
        l.append(")");
        assert(l@ =~= before + ("("@ + phase.detail@ + ")"@));
    }
    l
}

/// `s` cut to fit `max` bytes: when longer, its first `max - 3` bytes (none when
/// `max < 3`) followed by `...`.
pub open spec fn truncate_of(s: Seq<char>, max: nat) -> Seq<char> {
    if bytes_of(s).len() <= max {
        s
    } else {
        utf8_text(bytes_of(s).subrange(0, if max >= 3 { max - 3 } else { 0 })) + "..."@
    }
}

/// `s` cut to fit `max` bytes.
pub fn truncate(s: &str, max: usize) -> (r: String)
    requires
        bytes_of(s@).len() <= max || vstd::utf8::is_char_boundary(
            bytes_of(s@),
            if max >= 3 {
                max - 3
            } else {
                0
            },
        ),
        bytes_of(s@).len() <= usize::MAX,
    ensures
        r@ == truncate_of(s@, max as nat),
{
    if s.len() <= max {
        owned(s)
    } else {
        let cut = if max >= 3 {
            max - 3
        } else {
            0
        };
        let (head, _) = split_at_byte(s, cut);
        concat2(head.as_str(), "...")
    }
}

/// The URL line of the dashboard: the URL cut to 70 bytes.
pub fn url_line(url: &str) -> (l: String)
    requires
        bytes_of(url@).len() <= 70 || vstd::utf8::is_char_boundary(bytes_of(url@), 67),
        bytes_of(url@).len() <= usize::MAX,
    ensures
        l@ == "URL: "@ + truncate_of(url@, 70),
{
    let t = truncate(url, 70);
    concat2("URL: ", t.as_str())
}

/// The speed shown on the dashboard: `-` while none is known.
pub fn speed_shown(status: &CloneStatus) -> (s: String)
    ensures
        s@ == (if status.speed@.len() == 0 {
            "-"@
        } else {
            status.speed@
        }),
{
    if status.speed.unicode_len() == 0 {
        owned("-")
    } else {
        status.speed.clone()
    }
}

/// The status line of the dashboard.
pub fn footer_text(status: &CloneStatus) -> (s: String)
    ensures
        s@ == "Status: "@ + status.message@ + "  |  Press 'q' to close dashboard"@,
{
    concat3("Status: ", status.message.as_str(), "  |  Press 'q' to close dashboard")
}

} // verus!
