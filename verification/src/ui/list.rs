//! The texts of the list view.

use vstd::prelude::*;

use crate::app::App;
use crate::text::{decimal, push_decimal};

verus! {

/// What the list view shows in place of the table, if anything: a loading
/// note while the first list loads, a note for an empty list, else nothing.
pub open spec fn list_note(loading: bool, count: nat) -> Option<Seq<char>> {
    if loading && count == 0 {
        Some("Loading PRs…"@)
    } else if count == 0 {
        Some("No open PRs."@)
    } else {
        None
    }
}

/// The `#` column: the number, followed by `*` for a draft.
pub open spec fn number_text(number: u32, is_draft: bool) -> Seq<char> {
    if is_draft {
        decimal(number as nat) + "*"@
    } else {
        decimal(number as nat)
    }
}

/// The `#` column of a pull request.
pub fn number_cell(number: u32, is_draft: bool) -> (s: String)
    ensures
        s@ == number_text(number, is_draft),
{
    let mut s = String::new();
    push_decimal(&mut s, number as u64);
    if is_draft {
        s.append("*");
    }
    s
}

impl App {
    /// What the list view shows in place of the table, if anything.
    pub fn list_placeholder(&self) -> (note: Option<&'static str>)
        ensures
            match note {
                Some(n) => list_note(self.loading_list, self.prs.len() as nat) == Some(n@),
                None => list_note(self.loading_list, self.prs.len() as nat) is None,
            },
    {
        if self.loading_list && self.prs.len() == 0 {
            Some("Loading PRs…")
        } else if self.prs.len() == 0 {
            Some("No open PRs.")
        } else {
            None
        }
    }
}

} // verus!
