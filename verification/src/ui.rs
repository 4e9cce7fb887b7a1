//! The snapshot that the dashboard is drawn from, and the text of its lines.

use vstd::prelude::*;
use vstd::string::StringExecFns;
use crate::control::{DEFAULT_VOLUME, MAX_VOLUME};
use crate::station::Station;
use crate::text::{decimal, push_decimal_field, push_repeated, repeated, right_aligned};

verus! {

/// The number of cells in the level bar.
pub const BAR_LENGTH: u32 = 30;

/// What the dashboard shows: a copy of the session's visible state.
#[derive(Clone, Copy, Debug, PartialEq, Eq)]
pub struct UiState {
    pub station_index: usize,
    pub volume: u32,
    pub muted: bool,
    /// Whole seconds since the session started.
    pub elapsed_secs: u64,
}

impl UiState {
    /// The snapshot of a session that has just started.
    pub fn new() -> (r: Self)
        ensures
            r.station_index == 0,
            r.volume == DEFAULT_VOLUME,
            !r.muted,
            r.elapsed_secs == 0,
    {
        Self { station_index: 0, volume: DEFAULT_VOLUME, muted: false, elapsed_secs: 0 }
    }

    /// The number of filled cells in the level bar: none while muted, else
    /// the level's share of the bar, rounded down.
    pub open spec fn filled_cells(self) -> nat {
        if self.muted {
            0
        } else {
            (self.volume as nat * BAR_LENGTH as nat) / 100
        }
    }

    /// The level bar: filled cells, then empty ones, in brackets.
    pub open spec fn bar_text(self) -> Seq<char> {
        "["@ + repeated('#', self.filled_cells()) + repeated(
            '-',
            (BAR_LENGTH - self.filled_cells()) as nat,
        ) + "]"@
    }

    /// The elapsed time as hours, minutes and seconds, each at least two
    /// digits wide.
    pub open spec fn clock_text(self) -> Seq<char> {
        right_aligned(decimal(self.elapsed_secs as nat / 3600), 2, '0') + ":"@ + right_aligned(
            decimal((self.elapsed_secs as nat % 3600) / 60),
            2,
            '0',
        ) + ":"@ + right_aligned(decimal(self.elapsed_secs as nat % 60), 2, '0')
    }

    /// The status line: elapsed time, level, bar, and a mark while muted.
    pub open spec fn status_line(self) -> Seq<char> {
        "Elapsed: "@ + self.clock_text() + " | Volume: "@ + right_aligned(
            decimal(self.volume as nat),
            3,
            ' ',
        ) + "% "@ + self.bar_text() + (if self.muted {
            " [MUTED]"@
        } else {
            Seq::<char>::empty()
        })
    }

    /// The level bar of this snapshot.
    pub fn volume_bar(&self) -> (r: String)
        requires
            self.muted || self.volume <= MAX_VOLUME,
        ensures
            r@ == self.bar_text(),
    {
        let filled: u32 = if self.muted {
            0
        } else {
            (self.volume * BAR_LENGTH) / 100
        };
        let mut bar = String::from_str("[");
        proof {
            reveal_strlit("#");
            reveal_strlit("-");
        }
        push_repeated(&mut bar, "#", filled as usize);
        push_repeated(&mut bar, "-", (BAR_LENGTH - filled) as usize);
        bar.append("]");
        assert(bar@ =~= self.bar_text());
        bar
    }

    /// The status line of this snapshot.
    pub fn status_text(&self) -> (r: String)
        requires
            self.muted || self.volume <= MAX_VOLUME,
        ensures
            r@ == self.status_line(),
    {
        let hours = self.elapsed_secs / 3600;
        let minutes = (self.elapsed_secs % 3600) / 60;
        let seconds = self.elapsed_secs % 60;
        proof {
            reveal_strlit("0");
            reveal_strlit(" ");
        }
        let mut line = String::from_str("Elapsed: ");
        push_decimal_field(&mut line, hours, 2, "0");
        line.append(":");
        push_decimal_field(&mut line, minutes, 2, "0");
        line.append(":");
        push_decimal_field(&mut line, seconds, 2, "0");
        assert(line@ =~= "Elapsed: "@ + self.clock_text());
        line.append(" | Volume: ");
        push_decimal_field(&mut line, self.volume as u64, 3, " ");
        line.append("% ");
        let bar = self.volume_bar();
        line.append(bar.as_str());
        if self.muted {
            line.append(" [MUTED]");
        }
        assert(line@ =~= self.status_line());
        line
    }
}

/// One line of the station list: an arrow before the selected station, two
/// blanks before any other, then a blank and the name.
pub open spec fn station_line(name: Seq<char>, selected: bool) -> Seq<char> {
    (if selected {
        "->"@
    } else {
        "  "@
    }) + " "@ + name
}

/// The lines of the station list when the station at `selected` is playing.
pub open spec fn station_lines(stations: Seq<Station>, selected: nat) -> Seq<Seq<char>> {
    Seq::new(stations.len(), |i: int| station_line(stations[i].name@, i == selected))
}

/// The text of one line of the station list.
pub fn station_text(name: &str, selected: bool) -> (r: String)
    ensures
        r@ == station_line(name@, selected),
{
    let mut line = if selected {
        String::from_str("->")
    } else {
        String::from_str("  ")
    };
    line.append(" ");
    line.append(name);
    line
}

/// The text of every line of the station list, in table order.
pub fn station_list(stations: &[Station], selected: usize) -> (r: Vec<String>)
    ensures
        r.deep_view() == station_lines(stations@, selected as nat),
{
    let mut lines: Vec<String> = Vec::new();
    let mut i: usize = 0;
    while i < stations.len()
        invariant
            i <= stations.len(),
            lines@.len() == i,
            forall|k: int| 0 <= k < i ==> lines@[k]@ == station_line(stations@[k].name@, k == selected),
        decreases stations.len() - i,
    {
        lines.push(station_text(stations[i].name, i == selected));
        i = i + 1;
    }
    assert(lines.deep_view() =~= station_lines(stations@, selected as nat));
    lines
}

/// The help text under the status line.
pub fn controls_text() -> (r: &'static str)
    ensures
        r@ == "Controls:\nF11: Vol Up | F10: Vol Down | F12: Mute\nF7: Prev Station | F9: Next Station | F8: Play/Pause\nq: Quit"@,
{
    "Controls:\nF11: Vol Up | F10: Vol Down | F12: Mute\nF7: Prev Station | F9: Next Station | F8: Play/Pause\nq: Quit"
}

} // verus!
