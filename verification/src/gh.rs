//! What the program makes of the answers of the GitHub CLI.

use vstd::prelude::*;

use crate::text::{trim_text, trimmed};

verus! {

/// The repository named by the output of `gh repo view`: the output without
/// surrounding white space.
pub fn repo_from_output(stdout: &str) -> (repo: String)
    ensures
        repo@ == trimmed(stdout@),
{
    trim_text(stdout).to_owned()
}

/// The login named by the output of `gh api user`: the output without
/// surrounding white space, or nothing when that is empty.
pub fn login_from_output(stdout: &str) -> (login: Option<String>)
    ensures
        trimmed(stdout@).len() == 0 <==> login is None,
        login matches Some(l) ==> l@ == trimmed(stdout@),
{
    let t = trim_text(stdout);
    if t.is_empty() {
        None
    } else {
        Some(t.to_owned())
    }
}

} // verus!
