//! The texts of the detail view.

use vstd::prelude::*;

use crate::app::App;
use crate::model::{Mergeable, PrDetail};
use crate::text::{decimal, push_decimal, trim_text, trimmed};
use crate::ui::{Glyph, Tone};

verus! {

/// What `textwrap::fill` returns for a text and a line width: the text with
/// its lines wrapped at word boundaries to at most that width.
pub uninterp spec fn filled(text: Seq<char>, width: nat) -> Seq<char>;

/// Calls `textwrap::fill` with a plain line width. The result is named: it is
/// `filled` of the text and the width.
#[verifier::external_body]
fn fill_text(text: &str, width: usize) -> (r: String)
    ensures
        r@ == filled(text@, width as nat),
{
    textwrap::fill(text, width)
}

/// The width to which the description is wrapped in an area `area_width`
/// columns wide: the inner width inside the borders, at least 20.
pub open spec fn wrap_width(area_width: u16) -> nat {
    let inner: int = if area_width >= 2 {
        area_width - 2
    } else {
        0
    };
    if inner < 20 {
        20
    } else {
        inner as nat
    }
}

/// The description shown for a body: `(no description)` for a blank body,
/// else the body wrapped to the width of the area.
pub open spec fn description_of(body: Seq<char>, area_width: u16) -> Seq<char> {
    if trimmed(body).len() == 0 {
        "(no description)"@
    } else {
        filled(body, wrap_width(area_width))
    }
}

/// The description of a pull request for an area `area_width` columns wide.
pub fn description_text(body: &str, area_width: u16) -> (s: String)
    ensures
        s@ == description_of(body@, area_width),
{
    if trim_text(body).is_empty() {
        String::from_str("(no description)")
    } else {
        let inner = area_width.saturating_sub(2);
        let width: u16 = if inner < 20 {
            20
        } else {
            inner
        };
        fill_text(body, width as usize)
    }
}

/// What the detail view shows in place of the pull request, if anything.
pub open spec fn detail_note(number: u32, loading: bool, shown: bool) -> Option<Seq<char>> {
    if loading && !shown {
        Some("Loading PR #"@ + decimal(number as nat) + "…"@)
    } else if !shown {
        Some("No detail available."@)
    } else {
        None
    }
}

impl App {
    /// What the detail view of pull request `number` shows in place of the
    /// pull request: a loading note while its detail loads, a note when there
    /// is no detail, else nothing.
    pub fn detail_placeholder(&self, number: u32) -> (note: Option<String>)
        ensures
            match note {
                Some(n) => detail_note(number, self.loading_detail, self.detail is Some) == Some(n@),
                None => detail_note(number, self.loading_detail, self.detail is Some) is None,
            },
    {
        if self.loading_detail && self.detail.is_none() {
            let mut s = String::from_str("Loading PR #");
            push_decimal(&mut s, number as u64);
            s.append("…");
            Some(s)
        } else if self.detail.is_none() {
            Some(String::from_str("No detail available."))
        } else {
            None
        }
    }
}

/// The glyph of a pull request's mergeability.
pub open spec fn mergeable_glyph(m: Mergeable) -> (Seq<char>, Tone) {
    match m {
        Mergeable::Mergeable => ("mergeable"@, Tone::Green),
        Mergeable::Conflicting => ("conflicting"@, Tone::Red),
        Mergeable::Unknown => ("unknown"@, Tone::Dim),
    }
}

/// The glyph of a pull request's mergeability.
pub fn mergeable_cell(m: Mergeable) -> (g: Glyph)
    ensures
        g.shows(mergeable_glyph(m).0, mergeable_glyph(m).1),
{
    match m {
        Mergeable::Mergeable => Glyph { symbol: "mergeable", tone: Tone::Green },
        Mergeable::Conflicting => Glyph { symbol: "conflicting", tone: Tone::Red },
        Mergeable::Unknown => Glyph { symbol: "unknown", tone: Tone::Dim },
    }
}

/// The draft mark after the title: ` draft`, dimmed, for a draft; else nothing.
pub fn draft_mark(is_draft: bool) -> (g: Glyph)
    ensures
        is_draft ==> g.shows(" draft"@, Tone::Dim),
        !is_draft ==> g.shows(""@, Tone::Plain),
{
    if is_draft {
        Glyph { symbol: " draft", tone: Tone::Dim }
    } else {
        Glyph { symbol: "", tone: Tone::Plain }
    }
}

impl PrDetail {
    /// What the checks pane shows in place of the list of checks: a note when
    /// there are none, else nothing.
    pub fn checks_note(&self) -> (note: Option<&'static str>)
        ensures
            note is Some <==> self.checks.len() == 0,
            note matches Some(t) ==> t@ == "(no checks)"@,
    {
        if self.checks.len() == 0 {
            Some("(no checks)")
        } else {
            None
        }
    }

    /// What the people pane shows in place of the list of people: a note when
    /// nobody reviewed or was asked to, else nothing.
    pub fn people_note(&self) -> (note: Option<&'static str>)
        ensures
            note is Some <==> self.reviewers.len() == 0,
            note matches Some(t) ==> t@ == "(no reviews)"@,
    {
        if self.reviewers.len() == 0 {
            Some("(no reviews)")
        } else {
            None
        }
    }

    /// The start of the title line: `#`, the number and a space.
    pub fn title_prefix(&self) -> (s: String)
        ensures
            s@ == "#"@ + decimal(self.summary.number as nat) + " "@,
    {
        let mut s = String::from_str("#");
        push_decimal(&mut s, self.summary.number as u64);
        s.append(" ");
        s
    }

    /// The refs line: the head branch, an arrow, the base branch.
    pub fn refs_line(&self) -> (s: String)
        ensures
            s@ == self.summary.head_ref@ + " → "@ + self.summary.base_ref@,
    {
        let mut s = self.summary.head_ref.clone();
        s.append(" → ");
        s.append(self.summary.base_ref.as_str());
        s
    }

    /// The byline: the author and the age, given as text.
    pub fn byline(&self, age: &str) -> (s: String)
        ensures
            s@ == "by "@ + self.summary.author@ + " · updated "@ + age@ + " · "@,
    {
        let mut s = String::from_str("by ");
        s.append(self.summary.author.as_str());
        s.append(" · updated ");
        s.append(age);
        s.append(" · ");
        s
    }

    /// The diff size: lines added and deleted, and files changed.
    pub fn diff_summary(&self) -> (s: String)
        ensures
            s@ == " · +"@ + decimal(self.additions as nat) + " −"@ + decimal(self.deletions as nat)
                + " in "@ + decimal(self.changed_files as nat) + " files"@,
    {
        let mut s = String::from_str(" · +");
        push_decimal(&mut s, self.additions as u64);
        s.append(" −");
        push_decimal(&mut s, self.deletions as u64);
        s.append(" in ");
        push_decimal(&mut s, self.changed_files as u64);
        s.append(" files");
        s
    }
}

} // verus!
