//! What the screen shows, as text and tones: the glyphs of review, check and
//! involvement states, ages, and the header and footer lines. Drawing them is
//! left to the terminal front end.

use vstd::prelude::*;

use core::time::Duration;

use crate::app::{App, ViewMode};
use crate::clock::{duration_secs, epoch_reading_of, unix_now};
use crate::model::{CheckRollup, CheckState, Involvement, ReviewState, ReviewerState};
use crate::text::{decimal, push_decimal};

pub mod detail;
pub mod list;

verus! {

/// The colour in which a glyph is drawn.
#[derive(Debug, Clone, Copy, PartialEq, Eq, Structural)]
pub enum Tone {
    Plain,
    Green,
    Red,
    Yellow,
    Blue,
    Dim,
}

/// A short piece of text and its tone.
#[derive(Debug, Clone, Copy)]
pub struct Glyph {
    pub symbol: &'static str,
    pub tone: Tone,
}

impl Glyph {
    /// Whether this glyph shows `symbol` in `tone`.
    pub open spec fn shows(&self, symbol: Seq<char>, tone: Tone) -> bool {
        self.symbol@ == symbol && self.tone == tone
    }
}

/// The glyph of a pull request's review decision.
pub open spec fn review_glyph(state: ReviewState) -> (Seq<char>, Tone) {
    match state {
        ReviewState::Approved => ("✓"@, Tone::Green),
        ReviewState::ChangesRequested => ("✗"@, Tone::Red),
        ReviewState::ReviewRequired => ("●"@, Tone::Yellow),
        ReviewState::Reviewed => ("·"@, Tone::Blue),
        ReviewState::NoState => ("∅"@, Tone::Dim),
    }
}

/// The glyph of a check state; no state at all shows as a check without state.
pub open spec fn check_glyph(state: Option<CheckState>) -> (Seq<char>, Tone) {
    match state {
        Some(CheckState::Pass) => ("✓"@, Tone::Green),
        Some(CheckState::Fail) => ("✗"@, Tone::Red),
        Some(CheckState::Pending) => ("●"@, Tone::Yellow),
        _ => ("∅"@, Tone::Dim),
    }
}

/// The glyph of the viewer's involvement.
pub open spec fn involvement_glyph(inv: Involvement) -> (Seq<char>, Tone) {
    match inv {
        Involvement::ReviewRequested => ("!"@, Tone::Red),
        Involvement::AwaitingAuthor => ("…"@, Tone::Yellow),
        Involvement::Approved => ("✓"@, Tone::Green),
        Involvement::Commented => ("·"@, Tone::Blue),
        Involvement::NotInvolved => (" "@, Tone::Plain),
    }
}

/// The glyph of one participant's state.
pub open spec fn reviewer_glyph(state: ReviewerState) -> (Seq<char>, Tone) {
    match state {
        ReviewerState::Approved => ("✓"@, Tone::Green),
        ReviewerState::ChangesRequested => ("✗"@, Tone::Red),
        ReviewerState::Commented => ("·"@, Tone::Blue),
        ReviewerState::Pending => ("●"@, Tone::Yellow),
    }
}

fn check_option_cell(state: Option<CheckState>) -> (g: Glyph)
    ensures
        g.shows(check_glyph(state).0, check_glyph(state).1),
{
    match state {
        Some(CheckState::Pass) => Glyph { symbol: "✓", tone: Tone::Green },
        Some(CheckState::Fail) => Glyph { symbol: "✗", tone: Tone::Red },
        Some(CheckState::Pending) => Glyph { symbol: "●", tone: Tone::Yellow },
        _ => Glyph { symbol: "∅", tone: Tone::Dim },
    }
}

/// The `R` column: the review decision of a pull request.
pub fn review_cell(state: ReviewState) -> (g: Glyph)
    ensures
        g.shows(review_glyph(state).0, review_glyph(state).1),
{
    match state {
        ReviewState::Approved => Glyph { symbol: "✓", tone: Tone::Green },
        ReviewState::ChangesRequested => Glyph { symbol: "✗", tone: Tone::Red },
        ReviewState::ReviewRequired => Glyph { symbol: "●", tone: Tone::Yellow },
        ReviewState::Reviewed => Glyph { symbol: "·", tone: Tone::Blue },
        ReviewState::NoState => Glyph { symbol: "∅", tone: Tone::Dim },
    }
}

/// The `C` column: the overall state of a pull request's checks.
pub fn checks_cell(rollup: &CheckRollup) -> (g: Glyph)
    ensures
        g.shows(check_glyph(rollup.overall).0, check_glyph(rollup.overall).1),
{
    check_option_cell(rollup.overall)
}

/// The glyph of one check in the detail view.
pub fn check_state_span(state: CheckState) -> (g: Glyph)
    ensures
        g.shows(check_glyph(Some(state)).0, check_glyph(Some(state)).1),
{
    check_option_cell(Some(state))
}

/// The `Me` column: how the viewer is involved.
pub fn involvement_cell(inv: Involvement) -> (g: Glyph)
    ensures
        g.shows(involvement_glyph(inv).0, involvement_glyph(inv).1),
{
    match inv {
        Involvement::ReviewRequested => Glyph { symbol: "!", tone: Tone::Red },
        Involvement::AwaitingAuthor => Glyph { symbol: "…", tone: Tone::Yellow },
        Involvement::Approved => Glyph { symbol: "✓", tone: Tone::Green },
        Involvement::Commented => Glyph { symbol: "·", tone: Tone::Blue },
        Involvement::NotInvolved => Glyph { symbol: " ", tone: Tone::Plain },
    }
}

/// The glyph of a participant in the detail view.
pub fn reviewer_cell(state: ReviewerState) -> (g: Glyph)
    ensures
        g.shows(reviewer_glyph(state).0, reviewer_glyph(state).1),
{
    match state {
        ReviewerState::Approved => Glyph { symbol: "✓", tone: Tone::Green },
        ReviewerState::ChangesRequested => Glyph { symbol: "✗", tone: Tone::Red },
        ReviewerState::Commented => Glyph { symbol: "·", tone: Tone::Blue },
        ReviewerState::Pending => Glyph { symbol: "●", tone: Tone::Yellow },
    }
}

/// A span of `secs` seconds in its largest whole unit: seconds under a minute,
/// minutes under an hour, hours under a day, else days.
pub open spec fn elapsed_text(secs: nat) -> Seq<char> {
    if secs < 60 {
        decimal(secs) + "s"@
    } else if secs < 3600 {
        decimal(secs / 60) + "m"@
    } else if secs < 86400 {
        decimal(secs / 3600) + "h"@
    } else {
        decimal(secs / 86400) + "d"@
    }
}

/// A span of `secs` seconds in its largest whole unit.
pub fn format_elapsed_secs(secs: u64) -> (s: String)
    ensures
        s@ == elapsed_text(secs as nat),
{
    let mut s = String::new();
    if secs < 60 {
        push_decimal(&mut s, secs);
        s.append("s");
    } else if secs < 3600 {
        push_decimal(&mut s, secs / 60);
        s.append("m");
    } else if secs < 86_400 {
        push_decimal(&mut s, secs / 3600);
        s.append("h");
    } else {
        push_decimal(&mut s, secs / 86_400);
        s.append("d");
    }
    s
}

/// A duration in its largest whole unit, by its whole seconds.
pub fn format_elapsed(dur: Duration) -> (s: String)
    ensures
        s@ == elapsed_text(duration_secs(dur) as nat),
{
    format_elapsed_secs(dur.as_secs())
}

/// The whole seconds from `ts` (seconds since the epoch) to a clock reading of
/// `now_secs` seconds and `now_nanos` nanoseconds, rounded toward zero.
pub open spec fn seconds_since(ts: i64, now_secs: i64, now_nanos: u32) -> int {
    let diff = now_secs - ts;
    if diff < 0 && now_nanos > 0 {
        diff + 1
    } else {
        diff
    }
}

/// The age of a pull request updated at `ts` (seconds since the epoch) when
/// the clock shows `now_secs` seconds and `now_nanos` nanoseconds: a dash when
/// unknown, `just now` for a time a whole second or more ahead of the clock,
/// else the elapsed span.
pub open spec fn age_text(ts: Option<i64>, now_secs: i64, now_nanos: u32) -> Seq<char> {
    match ts {
        None => "—"@,
        Some(t) => if seconds_since(t, now_secs, now_nanos) < 0 {
            "just now"@
        } else {
            elapsed_text(seconds_since(t, now_secs, now_nanos) as nat)
        },
    }
}

/// The age of a pull request updated at `ts`, as the clock shows `now_secs`
/// seconds and `now_nanos` nanoseconds after the epoch.
pub fn format_age_at(ts: Option<i64>, now_secs: i64, now_nanos: u32) -> (s: String)
    ensures
        s@ == age_text(ts, now_secs, now_nanos),
{
    match ts {
        None => String::from_str("—"),
        Some(t) => {
            let diff: i128 = now_secs as i128 - t as i128;
            let secs: i128 = if diff < 0 && now_nanos > 0 {
                diff + 1
            } else {
                diff
            };
            if secs < 0 {
                String::from_str("just now")
            } else {
                format_elapsed_secs(secs as u64)
            }
        },
    }
}

/// The age shown for `ts` with a clock reading, a dash when the clock could
/// not be read.
pub open spec fn age_or_unknown(ts: Option<i64>, now: Option<(i64, u32)>) -> Seq<char> {
    match now {
        Some(n) => age_text(ts, n.0, n.1),
        None => "—"@,
    }
}

/// The age of a pull request updated at `ts`, as the system clock shows now;
/// a dash when the clock cannot be read as a time after the epoch.
pub fn format_age(ts: Option<i64>) -> (s: String)
    ensures
        exists|now: Option<(i64, u32)>| s@ == age_or_unknown(ts, now),
        ts is None ==> s@ == "—"@,
        s@ == age_or_unknown(ts, None) || exists|d: Duration| s@ == age_or_unknown(
            ts,
            #[trigger] epoch_reading_of(d),
        ),
{
    let now = unix_now();
    let s = match now {
        Some(n) => format_age_at(ts, n.0, n.1),
        None => String::from_str("—"),
    };
    assert(s@ == age_or_unknown(ts, now));
    s
}

/// The header's note on freshness: how long ago the list was refreshed, else
/// `loading…` while the first list loads, else a dash.
pub open spec fn refreshed_text(elapsed: Option<nat>, loading: bool) -> Seq<char> {
    match elapsed {
        Some(secs) => "refreshed "@ + elapsed_text(secs) + " ago"@,
        None => if loading {
            "loading…"@
        } else {
            "—"@
        },
    }
}

/// The header line: the program, the repository, the number of open pull
/// requests and the freshness note.
pub open spec fn header_text(repo: Seq<char>, count: nat, elapsed: Option<nat>, loading: bool) -> Seq<
    char,
> {
    "prq · "@ + repo + " · "@ + decimal(count) + " open PR(s) · "@ + refreshed_text(elapsed, loading)
}

/// The header line for a repository, a count, the seconds since the last
/// refresh if there was one, and whether a list is loading.
pub fn header_line(repo: &str, count: usize, elapsed_secs: Option<u64>, loading: bool) -> (s: String)
    ensures
        s@ == header_text(repo@, count as nat, match elapsed_secs {
            Some(e) => Some(e as nat),
            None => None,
        }, loading),
{
    let mut s = String::from_str("prq · ");
    s.append(repo);
    s.append(" · ");
    push_decimal(&mut s, count as u64);
    s.append(" open PR(s) · ");
    match elapsed_secs {
        Some(e) => {
            s.append("refreshed ");
            let t = format_elapsed_secs(e);
            s.append(t.as_str());
            s.append(" ago");
        },
        None => if loading {
            s.append("loading…");
        } else {
            s.append("—");
        },
    }
    s
}

/// The footer: the last error, or the keys of the current view.
#[derive(Debug, Clone)]
pub enum Footer {
    Error(String),
    Hint(&'static str),
}

/// The keys that the footer lists in a view.
pub open spec fn hint_text(mode: ViewMode) -> Seq<char> {
    match mode {
        ViewMode::List => "j/k move · g/G top/bottom · Enter detail · o open · r refresh · ? help · q quit"@,
        ViewMode::Detail(_) => "Esc back · o open · r refresh · ? help · q quit"@,
    }
}

impl App {
    /// The header line of this state; the seconds since the last refresh are
    /// read from the monotonic clock.
    pub fn header_text(&self) -> (s: String)
        ensures
            self.last_refresh is None ==> s@ == header_text(self.repo@, self.prs.len() as nat, None, self.loading_list),
            self.last_refresh is Some ==> exists|e: u64| s@ == header_text(self.repo@, self.prs.len() as nat, Some(e as nat), self.loading_list),
            self.last_refresh is Some ==> exists|d: Duration| s@ == header_text(
                self.repo@,
                self.prs.len() as nat,
                Some(#[trigger] duration_secs(d) as nat),
                self.loading_list,
            ),
    {
        match &self.last_refresh {
            Some(t) => {
                let d = t.elapsed();
                let s = header_line(self.repo.as_str(), self.prs.len(), Some(d.as_secs()), self.loading_list);
                assert(s@ == header_text(self.repo@, self.prs.len() as nat, Some(duration_secs(d) as nat), self.loading_list));
                s
            },
            None => header_line(self.repo.as_str(), self.prs.len(), None, self.loading_list),
        }
    }

    /// The footer of this state: `error: ` and the last error if there is
    /// one, else the keys of the current view.
    pub fn footer(&self) -> (f: Footer)
        ensures
            match self.last_error {
                Some(e) => f matches Footer::Error(t) && t@ == "error: "@ + e@,
                None => f matches Footer::Hint(h) && h@ == hint_text(self.mode),
            },
    {
        match &self.last_error {
            Some(e) => {
                let mut t = String::from_str("error: ");
                t.append(e.as_str());
                Footer::Error(t)
            },
            None => match self.mode {
                ViewMode::List => Footer::Hint(
                    "j/k move · g/G top/bottom · Enter detail · o open · r refresh · ? help · q quit",
                ),
                ViewMode::Detail(_) => Footer::Hint("Esc back · o open · r refresh · ? help · q quit"),
            },
        }
    }
}

/// An elapsed span reads as a whole number `n` of one unit `u` (a second, a
/// minute, an hour or a day) with `n * u <= secs < (n + 1) * u`: seconds
/// under a minute, minutes under an hour, hours under a day, else days.
pub proof fn lemma_elapsed_text_unit(secs: nat)
    ensures
        secs < 60 ==> elapsed_text(secs) == decimal(secs) + "s"@,
        60 <= secs < 3600 ==> exists|n: nat|
            n * 60 <= secs < n * 60 + 60 && elapsed_text(secs) == #[trigger] decimal(n) + "m"@,
        3600 <= secs < 86400 ==> exists|n: nat|
            n * 3600 <= secs < n * 3600 + 3600 && elapsed_text(secs) == #[trigger] decimal(n) + "h"@,
        86400 <= secs ==> exists|n: nat|
            n * 86400 <= secs < n * 86400 + 86400 && elapsed_text(secs) == #[trigger] decimal(n) + "d"@,
{
    if 60 <= secs < 3600 {
        let n = secs / 60;
        assert(n * 60 <= secs < n * 60 + 60);
        assert(elapsed_text(secs) == decimal(n) + "m"@);
    } else if 3600 <= secs < 86400 {
        let n = secs / 3600;
        assert(n * 3600 <= secs < n * 3600 + 3600);
        assert(elapsed_text(secs) == decimal(n) + "h"@);
    } else if 86400 <= secs {
        let n = secs / 86400;
        assert(n * 86400 <= secs < n * 86400 + 86400);
        assert(elapsed_text(secs) == decimal(n) + "d"@);
    }
}

/// A pull request updated `k` whole seconds before a clock reading shows the
/// span of `k` seconds, whatever the fraction of the reading; one updated a
/// whole second or more after the reading shows `just now`; one updated less
/// than a second after it shows zero seconds.
pub proof fn lemma_age_reading(t: i64, now_secs: i64, now_nanos: u32)
    ensures
        t <= now_secs ==> age_text(Some(t), now_secs, now_nanos) == elapsed_text(
            (now_secs - t) as nat,
        ),
        t > now_secs + 1 || (t == now_secs + 1 && now_nanos == 0) ==> age_text(
            Some(t),
            now_secs,
            now_nanos,
        ) == "just now"@,
        t == now_secs + 1 && now_nanos > 0 ==> age_text(Some(t), now_secs, now_nanos)
            == elapsed_text(0),
{
}

/// An unknown update time always reads as a dash.
pub proof fn lemma_age_unknown(now_secs: i64, now_nanos: u32)
    ensures
        age_text(None, now_secs, now_nanos) == "—"@,
{
}

} // verus!
