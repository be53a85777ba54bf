//! The pull-request model: review and check states, check rollups, and the
//! summary and detail records built from what `gh` reports.

use vstd::prelude::*;

use crate::text::text_eq;

verus! {

/// The overall review decision on a pull request.
#[derive(Debug, Clone, Copy, PartialEq, Eq, Structural)]
pub enum ReviewState {
    Approved,
    ChangesRequested,
    ReviewRequired,
    Reviewed,
    NoState,
}

/// The review state that a `reviewDecision` word stands for.
pub open spec fn review_state_of(s: Seq<char>) -> ReviewState {
    if s == "APPROVED"@ {
        ReviewState::Approved
    } else if s == "CHANGES_REQUESTED"@ {
        ReviewState::ChangesRequested
    } else if s == "REVIEW_REQUIRED"@ {
        ReviewState::ReviewRequired
    } else if s.len() == 0 {
        ReviewState::NoState
    } else {
        ReviewState::Reviewed
    }
}

impl ReviewState {
    /// Reads a `reviewDecision` word: the three known decisions, the empty
    /// word for no review state, and any other word for a review without a decision.
    pub fn from_decision(s: &str) -> (r: ReviewState)
        ensures
            r == review_state_of(s@),
    {
        if text_eq(s, "APPROVED") {
            ReviewState::Approved
        } else if text_eq(s, "CHANGES_REQUESTED") {
            ReviewState::ChangesRequested
        } else if text_eq(s, "REVIEW_REQUIRED") {
            ReviewState::ReviewRequired
        } else if s.is_empty() {
            ReviewState::NoState
        } else {
            ReviewState::Reviewed
        }
    }
}

/// The state of one check, or of a rollup of checks.
#[derive(Debug, Clone, Copy, PartialEq, Eq, Structural)]
pub enum CheckState {
    Pass,
    Fail,
    Pending,
    NoState,
}

/// Whether a pull request can be merged.
#[derive(Debug, Clone, Copy, PartialEq, Eq, Structural)]
pub enum Mergeable {
    Mergeable,
    Conflicting,
    Unknown,
}

/// The mergeability that a `mergeable` word stands for.
pub open spec fn mergeable_of(s: Seq<char>) -> Mergeable {
    if s == "MERGEABLE"@ {
        Mergeable::Mergeable
    } else if s == "CONFLICTING"@ {
        Mergeable::Conflicting
    } else {
        Mergeable::Unknown
    }
}

impl Mergeable {
    /// Reads a `mergeable` word; anything but the two known words is unknown.
    pub fn from_str(s: &str) -> (r: Mergeable)
        ensures
            r == mergeable_of(s@),
    {
        if text_eq(s, "MERGEABLE") {
            Mergeable::Mergeable
        } else if text_eq(s, "CONFLICTING") {
            Mergeable::Conflicting
        } else {
            Mergeable::Unknown
        }
    }
}

/// The characters of an optional string.
pub open spec fn opt_text(o: Option<String>) -> Option<Seq<char>> {
    match o {
        Some(s) => Some(s@),
        None => None,
    }
}

/// The characters of an optional string, the empty sequence standing for `None`.
pub open spec fn text_or_empty(o: Option<Seq<char>>) -> Seq<char> {
    match o {
        Some(s) => s,
        None => Seq::empty(),
    }
}

/// One entry of a `statusCheckRollup`: either a check run (name, status,
/// conclusion) or a legacy status context (context, state).
#[derive(Debug, Clone)]
pub struct RawCheck {
    pub name: Option<String>,
    pub context: Option<String>,
    pub status: Option<String>,
    pub conclusion: Option<String>,
    pub state: Option<String>,
    pub url: Option<String>,
}

/// The check state of a legacy status context's `state` word.
pub open spec fn status_state_class(st: Seq<char>) -> CheckState {
    if st == "SUCCESS"@ {
        CheckState::Pass
    } else if st == "FAILURE"@ || st == "ERROR"@ {
        CheckState::Fail
    } else if st == "PENDING"@ || st == "EXPECTED"@ {
        CheckState::Pending
    } else {
        CheckState::NoState
    }
}

/// The check state of a completed check run's `conclusion` word.
pub open spec fn conclusion_class(c: Seq<char>) -> CheckState {
    if c == "SUCCESS"@ {
        CheckState::Pass
    } else if c == "FAILURE"@ || c == "TIMED_OUT"@ || c == "ACTION_REQUIRED"@ || c
        == "STARTUP_FAILURE"@ || c == "CANCELLED"@ {
        CheckState::Fail
    } else if c == "SKIPPED"@ || c == "NEUTRAL"@ || c == "STALE"@ {
        CheckState::NoState
    } else if c.len() == 0 {
        CheckState::Pending
    } else {
        CheckState::NoState
    }
}

/// How a check entry is classified: a legacy `state` decides alone; otherwise a
/// run that has a status other than `COMPLETED` is pending, and a completed (or
/// status-less) run goes by its conclusion.
pub open spec fn classify_check(
    state: Option<Seq<char>>,
    status: Option<Seq<char>>,
    conclusion: Option<Seq<char>>,
) -> CheckState {
    match state {
        Some(st) => status_state_class(st),
        None => {
            let status = text_or_empty(status);
            if status != "COMPLETED"@ && status.len() != 0 {
                CheckState::Pending
            } else {
                conclusion_class(text_or_empty(conclusion))
            }
        },
    }
}

fn status_word_class(st: &str) -> (r: CheckState)
    ensures
        r == status_state_class(st@),
{
    if text_eq(st, "SUCCESS") {
        CheckState::Pass
    } else if text_eq(st, "FAILURE") || text_eq(st, "ERROR") {
        CheckState::Fail
    } else if text_eq(st, "PENDING") || text_eq(st, "EXPECTED") {
        CheckState::Pending
    } else {
        CheckState::NoState
    }
}

fn conclusion_word_class(c: &str) -> (r: CheckState)
    ensures
        r == conclusion_class(c@),
{
    if text_eq(c, "SUCCESS") {
        CheckState::Pass
    } else if text_eq(c, "FAILURE") || text_eq(c, "TIMED_OUT") || text_eq(c, "ACTION_REQUIRED")
        || text_eq(c, "STARTUP_FAILURE") || text_eq(c, "CANCELLED") {
        CheckState::Fail
    } else if text_eq(c, "SKIPPED") || text_eq(c, "NEUTRAL") || text_eq(c, "STALE") {
        CheckState::NoState
    } else if c.is_empty() {
        CheckState::Pending
    } else {
        CheckState::NoState
    }
}

/// The label of a check: its name, else its context, else `check`.
pub open spec fn check_label(name: Option<Seq<char>>, context: Option<Seq<char>>) -> Seq<char> {
    match name {
        Some(n) => n,
        None => match context {
            Some(c) => c,
            None => "check"@,
        },
    }
}

impl RawCheck {
    /// The classification of this entry.
    pub open spec fn spec_class(&self) -> CheckState {
        classify_check(opt_text(self.state), opt_text(self.status), opt_text(self.conclusion))
    }

    /// The label shown for this entry: its name, else its context, else `check`.
    pub fn label(&self) -> (r: &str)
        ensures
            r@ == check_label(opt_text(self.name), opt_text(self.context)),
    {
        match &self.name {
            Some(n) => n.as_str(),
            None => match &self.context {
                Some(c) => c.as_str(),
                None => "check",
            },
        }
    }

    /// Classifies this entry as passing, failing, pending or neither.
    pub fn classify(&self) -> (r: CheckState)
        ensures
            r == self.spec_class(),
    {
        match &self.state {
            Some(st) => status_word_class(st.as_str()),
            None => {
                let pending = match &self.status {
                    Some(s) => !text_eq(s.as_str(), "COMPLETED") && !s.as_str().is_empty(),
                    None => false,
                };
                if pending {
                    CheckState::Pending
                } else {
                    match &self.conclusion {
                        Some(c) => conclusion_word_class(c.as_str()),
                        None => {
                            proof {
                                reveal_strlit("");
                                assert(""@ =~= Seq::<char>::empty());
                            }
                            conclusion_word_class("")
                        },
                    }
                }
            },
        }
    }
}

/// The classifications of a sequence of check entries, in order.
pub open spec fn classes(entries: Seq<RawCheck>) -> Seq<CheckState> {
    entries.map_values(|e: RawCheck| e.spec_class())
}

/// How many of `states` are `st`.
pub open spec fn count_state(states: Seq<CheckState>, st: CheckState) -> nat
    decreases states.len(),
{
    if states.len() == 0 {
        0
    } else {
        count_state(states.drop_last(), st) + if states.last() == st {
            1nat
        } else {
            0nat
        }
    }
}

/// The overall state of a rollup: none for no entries, else failing if any
/// fails, else pending if any is pending, else passing if any passes, else neither.
pub open spec fn overall_of(states: Seq<CheckState>) -> Option<CheckState> {
    if states.len() == 0 {
        None
    } else if count_state(states, CheckState::Fail) > 0 {
        Some(CheckState::Fail)
    } else if count_state(states, CheckState::Pending) > 0 {
        Some(CheckState::Pending)
    } else if count_state(states, CheckState::Pass) > 0 {
        Some(CheckState::Pass)
    } else {
        Some(CheckState::NoState)
    }
}

/// Counting over a prefix never exceeds counting over the whole.
pub proof fn lemma_count_prefix(states: Seq<CheckState>, st: CheckState, i: int)
    requires
        0 <= i <= states.len(),
    ensures
        count_state(states.take(i), st) <= count_state(states, st),
    decreases states.len() - i,
{
    if i < states.len() {
        lemma_count_prefix(states, st, i + 1);
        assert(states.take(i + 1).drop_last() =~= states.take(i));
    } else {
        assert(states.take(i) =~= states);
    }
}

/// Each entry falls in exactly one of the four states, so the four counts add
/// up to the number of entries.
pub proof fn lemma_counts_sum(states: Seq<CheckState>)
    ensures
        count_state(states, CheckState::Pass) + count_state(states, CheckState::Fail)
            + count_state(states, CheckState::Pending) + count_state(states, CheckState::NoState)
            == states.len(),
    decreases states.len(),
{
    if states.len() > 0 {
        lemma_counts_sum(states.drop_last());
    }
}

/// Whether every state's count over `entries` fits in a `u16`.
pub open spec fn counts_fit(entries: Seq<RawCheck>) -> bool {
    &&& count_state(classes(entries), CheckState::Pass) <= u16::MAX
    &&& count_state(classes(entries), CheckState::Fail) <= u16::MAX
    &&& count_state(classes(entries), CheckState::Pending) <= u16::MAX
    &&& count_state(classes(entries), CheckState::NoState) <= u16::MAX
}

/// Counts of checks by state, and their overall state.
#[derive(Debug, Clone)]
pub struct CheckRollup {
    pub passing: u16,
    pub failing: u16,
    pub pending: u16,
    pub skipped: u16,
    pub overall: Option<CheckState>,
}

impl Default for CheckRollup {
    fn default() -> (r: CheckRollup)
        ensures
            r.passing == 0 && r.failing == 0 && r.pending == 0 && r.skipped == 0,
            r.overall is None,
    {
        CheckRollup { passing: 0, failing: 0, pending: 0, skipped: 0, overall: None }
    }
}

impl CheckRollup {
    /// Whether this rollup is the one that `entries` give.
    pub open spec fn rolls_up(&self, entries: Seq<RawCheck>) -> bool {
        let states = classes(entries);
        &&& self.passing == count_state(states, CheckState::Pass)
        &&& self.failing == count_state(states, CheckState::Fail)
        &&& self.pending == count_state(states, CheckState::Pending)
        &&& self.skipped == count_state(states, CheckState::NoState)
        &&& self.overall == overall_of(states)
    }

    /// Counts the entries by their classification and derives the overall state.
    pub fn from_raw(entries: &[RawCheck]) -> (r: CheckRollup)
        requires
            counts_fit(entries@),
        ensures
            r.rolls_up(entries@),
    {
        let ghost states = classes(entries@);
        let mut rollup = CheckRollup::default();
        let mut i: usize = 0;
        while i < entries.len()
            invariant
                i <= entries.len(),
                states == classes(entries@),
                counts_fit(entries@),
                rollup.passing == count_state(states.take(i as int), CheckState::Pass),
                rollup.failing == count_state(states.take(i as int), CheckState::Fail),
                rollup.pending == count_state(states.take(i as int), CheckState::Pending),
                rollup.skipped == count_state(states.take(i as int), CheckState::NoState),
            decreases entries.len() - i,
        {
            let c = entries[i].classify();
            proof {
                assert(states.take(i + 1).drop_last() =~= states.take(i as int));
                assert(states[i as int] == c);
                lemma_count_prefix(states, c, i + 1);
            }
            match c {
                CheckState::Pass => rollup.passing = rollup.passing + 1,
                CheckState::Fail => rollup.failing = rollup.failing + 1,
                CheckState::Pending => rollup.pending = rollup.pending + 1,
                CheckState::NoState => rollup.skipped = rollup.skipped + 1,
            }
            i = i + 1;
        }
        proof {
            assert(states.take(entries@.len() as int) =~= states);
        }
        rollup.overall = if entries.len() == 0 {
            None
        } else if rollup.failing > 0 {
            Some(CheckState::Fail)
        } else if rollup.pending > 0 {
            Some(CheckState::Pending)
        } else if rollup.passing > 0 {
            Some(CheckState::Pass)
        } else {
            Some(CheckState::NoState)
        };
        rollup
    }
}

/// The optional characters of an optional string, cloned.
fn clone_opt(o: &Option<String>) -> (r: Option<String>)
    ensures
        opt_text(r) == opt_text(*o),
{
    match o {
        Some(s) => Some(s.clone()),
        None => None,
    }
}

/// One check of a pull request as the detail view lists it.
#[derive(Debug, Clone)]
pub struct CheckRun {
    pub name: String,
    pub state: CheckState,
    pub url: Option<String>,
}

impl CheckRun {
    /// Whether this run is the one that `raw` gives.
    pub open spec fn describes(&self, raw: RawCheck) -> bool {
        &&& self.name@ == check_label(opt_text(raw.name), opt_text(raw.context))
        &&& self.state == raw.spec_class()
        &&& opt_text(self.url) == opt_text(raw.url)
    }

    /// The run of a check entry: its label, its classification and its link.
    pub fn from(raw: &RawCheck) -> (r: CheckRun)
        ensures
            r.describes(*raw),
    {
        CheckRun { name: raw.label().to_owned(), state: raw.classify(), url: clone_opt(&raw.url) }
    }
}

/// How one participant stands on a pull request.
#[derive(Debug, Clone, Copy, PartialEq, Eq, Structural)]
pub enum ReviewerState {
    Approved,
    ChangesRequested,
    Commented,
    Pending,
}

/// A participant of a pull request and how they stand.
#[derive(Debug, Clone)]
pub struct Reviewer {
    pub login: String,
    pub state: ReviewerState,
}

/// A participant as a login and a state.
pub open spec fn reviewer_pair(r: Reviewer) -> (Seq<char>, ReviewerState) {
    (r.login@, r.state)
}

/// A list of participants as logins and states.
pub open spec fn reviewer_pairs(rs: Seq<Reviewer>) -> Seq<(Seq<char>, ReviewerState)> {
    rs.map_values(|r: Reviewer| reviewer_pair(r))
}

/// The author of a pull request or of a review.
#[derive(Debug, Clone)]
pub struct RawAuthor {
    pub login: String,
}

/// A requested participant: a user (login) or a team (name).
#[derive(Debug, Clone)]
pub struct RawReviewer {
    pub login: String,
    pub name: Option<String>,
}

/// The latest review of one author.
#[derive(Debug, Clone)]
pub struct RawReview {
    pub author: RawAuthor,
    pub state: String,
}

/// A pull request as `gh` reports it. Timestamps are seconds since the Unix epoch.
#[derive(Debug, Clone)]
pub struct RawPr {
    pub number: u32,
    pub title: String,
    pub author: RawAuthor,
    pub head_ref: String,
    pub base_ref: String,
    pub is_draft: bool,
    pub mergeable: String,
    pub created_at: Option<i64>,
    pub updated_at: Option<i64>,
    pub url: String,
    pub review_decision: String,
    pub status_check_rollup: Vec<RawCheck>,
    pub review_requests: Vec<RawReviewer>,
    pub latest_reviews: Vec<RawReview>,
    pub body: Option<String>,
    pub additions: Option<u32>,
    pub deletions: Option<u32>,
    pub changed_files: Option<u32>,
}

/// The participant state that a review's `state` word stands for, if any.
pub open spec fn reviewer_state_of(s: Seq<char>) -> Option<ReviewerState> {
    if s == "APPROVED"@ {
        Some(ReviewerState::Approved)
    } else if s == "CHANGES_REQUESTED"@ {
        Some(ReviewerState::ChangesRequested)
    } else if s == "COMMENTED"@ {
        Some(ReviewerState::Commented)
    } else {
        None
    }
}

/// The participants that the latest reviews give, in order: each review whose
/// state is a verdict or a comment, as its author's login with that state.
pub open spec fn reviewed(reviews: Seq<RawReview>) -> Seq<(Seq<char>, ReviewerState)>
    decreases reviews.len(),
{
    if reviews.len() == 0 {
        Seq::empty()
    } else {
        let prev = reviewed(reviews.drop_last());
        let rv = reviews.last();
        match reviewer_state_of(rv.state@) {
            Some(st) => prev.push((rv.author.login@, st)),
            None => prev,
        }
    }
}

/// The login under which a review request is listed: the user's login, or
/// for a team (empty login) its name.
pub open spec fn request_login(req: RawReviewer) -> Seq<char> {
    if req.login@.len() == 0 {
        text_or_empty(opt_text(req.name))
    } else {
        req.login@
    }
}

/// Whether `login` occurs among the participants `rs`.
pub open spec fn has_login(rs: Seq<(Seq<char>, ReviewerState)>, login: Seq<char>) -> bool {
    exists|i: int| 0 <= i < rs.len() && #[trigger] rs[i].0 == login
}

/// `base` followed, in request order, by each requested login that is not
/// empty and not yet listed, as pending.
pub open spec fn with_requests(
    base: Seq<(Seq<char>, ReviewerState)>,
    reqs: Seq<RawReviewer>,
) -> Seq<(Seq<char>, ReviewerState)>
    decreases reqs.len(),
{
    if reqs.len() == 0 {
        base
    } else {
        let prev = with_requests(base, reqs.drop_last());
        let login = request_login(reqs.last());
        if login.len() == 0 || has_login(prev, login) {
            prev
        } else {
            prev.push((login, ReviewerState::Pending))
        }
    }
}

/// The participants of a pull request: those who reviewed, then those requested.
pub open spec fn reviewers_of(r: RawPr) -> Seq<(Seq<char>, ReviewerState)> {
    with_requests(reviewed(r.latest_reviews@), r.review_requests@)
}

fn reviewer_state_word(s: &str) -> (r: Option<ReviewerState>)
    ensures
        r == reviewer_state_of(s@),
{
    if text_eq(s, "APPROVED") {
        Some(ReviewerState::Approved)
    } else if text_eq(s, "CHANGES_REQUESTED") {
        Some(ReviewerState::ChangesRequested)
    } else if text_eq(s, "COMMENTED") {
        Some(ReviewerState::Commented)
    } else {
        None
    }
}

fn lists_login(rs: &Vec<Reviewer>, login: &String) -> (b: bool)
    ensures
        b == has_login(reviewer_pairs(rs@), login@),
{
    let ghost pairs = reviewer_pairs(rs@);
    let mut i: usize = 0;
    while i < rs.len()
        invariant
            i <= rs.len(),
            pairs == reviewer_pairs(rs@),
            forall|j: int| 0 <= j < i ==> #[trigger] pairs[j].0 != login@,
        decreases rs.len() - i,
    {
        if rs[i].login == *login {
            assert(pairs[i as int].0 == login@);
            return true;
        }
        i = i + 1;
    }
    false
}

/// How the viewing user is involved in a pull request.
#[derive(Debug, Clone, Copy, PartialEq, Eq, Structural)]
pub enum Involvement {
    /// A review is requested from the viewer.
    ReviewRequested,
    /// The viewer requested changes and waits on the author.
    AwaitingAuthor,
    /// The viewer approved.
    Approved,
    /// The viewer commented without a verdict.
    Commented,
    /// The viewer is not involved.
    NotInvolved,
}

/// Whether a review is requested from the user `viewer`.
pub open spec fn requested_from(reqs: Seq<RawReviewer>, viewer: Seq<char>) -> bool {
    exists|i: int| 0 <= i < reqs.len() && #[trigger] reqs[i].login@ == viewer
}

/// The state of the last of the participants `rs` whose login is `viewer`, if any.
pub open spec fn own_review(rs: Seq<(Seq<char>, ReviewerState)>, viewer: Seq<char>) -> Option<
    ReviewerState,
>
    decreases rs.len(),
{
    if rs.len() == 0 {
        None
    } else if rs.last().0 == viewer {
        Some(rs.last().1)
    } else {
        own_review(rs.drop_last(), viewer)
    }
}

/// How `viewer` is involved in `r`: a pending request from them comes first,
/// then their own latest verdict or comment; an empty login is never involved.
pub open spec fn involvement_of(r: RawPr, viewer: Seq<char>) -> Involvement {
    if viewer.len() == 0 {
        Involvement::NotInvolved
    } else if requested_from(r.review_requests@, viewer) {
        Involvement::ReviewRequested
    } else {
        match own_review(reviewed(r.latest_reviews@), viewer) {
            Some(ReviewerState::ChangesRequested) => Involvement::AwaitingAuthor,
            Some(ReviewerState::Approved) => Involvement::Approved,
            Some(ReviewerState::Commented) => Involvement::Commented,
            _ => Involvement::NotInvolved,
        }
    }
}

/// The involvement of an optional viewer; no viewer is never involved.
pub open spec fn involvement_for(r: RawPr, viewer: Option<Seq<char>>) -> Involvement {
    match viewer {
        Some(v) => involvement_of(r, v),
        None => Involvement::NotInvolved,
    }
}

fn reviewed_list(reviews: &Vec<RawReview>) -> (out: Vec<Reviewer>)
    ensures
        reviewer_pairs(out@) == reviewed(reviews@),
{
    let mut out: Vec<Reviewer> = Vec::new();
    let mut i: usize = 0;
    while i < reviews.len()
        invariant
            i <= reviews.len(),
            reviewer_pairs(out@) == reviewed(reviews@.take(i as int)),
        decreases reviews.len() - i,
    {
        let rv = &reviews[i];
        proof {
            assert(reviews@.take(i + 1).drop_last() =~= reviews@.take(i as int));
        }
        match reviewer_state_word(rv.state.as_str()) {
            Some(st) => {
                out.push(Reviewer { login: rv.author.login.clone(), state: st });
                proof {
                    assert(reviewer_pairs(out@) =~= reviewed(reviews@.take(i as int)).push(
                        (rv.author.login@, st),
                    ));
                }
            },
            None => {},
        }
        i = i + 1;
    }
    proof {
        assert(reviews@.take(reviews.len() as int) =~= reviews@);
    }
    out
}

fn involvement(r: &RawPr, viewer: &str) -> (inv: Involvement)
    ensures
        inv == involvement_of(*r, viewer@),
{
    if viewer.is_empty() {
        return Involvement::NotInvolved;
    }
    let mut k: usize = 0;
    while k < r.review_requests.len()
        invariant
            k <= r.review_requests.len(),
            viewer@.len() > 0,
            forall|j: int| 0 <= j < k ==> #[trigger] r.review_requests@[j].login@ != viewer@,
        decreases r.review_requests.len() - k,
    {
        if text_eq(r.review_requests[k].login.as_str(), viewer) {
            assert(r.review_requests@[k as int].login@ == viewer@);
            return Involvement::ReviewRequested;
        }
        k = k + 1;
    }
    let rs = reviewed_list(&r.latest_reviews);
    let ghost pairs = reviewer_pairs(rs@);
    proof {
        assert(pairs.take(rs.len() as int) =~= pairs);
    }
    let mut i: usize = rs.len();
    while i > 0
        invariant
            i <= rs.len(),
            viewer@.len() > 0,
            !requested_from(r.review_requests@, viewer@),
            pairs == reviewed(r.latest_reviews@),
            pairs == reviewer_pairs(rs@),
            own_review(pairs, viewer@) == own_review(pairs.take(i as int), viewer@),
        decreases i,
    {
        proof {
            assert(pairs.take(i as int).drop_last() =~= pairs.take(i - 1));
        }
        if text_eq(rs[i - 1].login.as_str(), viewer) {
            return match rs[i - 1].state {
                ReviewerState::ChangesRequested => Involvement::AwaitingAuthor,
                ReviewerState::Approved => Involvement::Approved,
                ReviewerState::Commented => Involvement::Commented,
                ReviewerState::Pending => Involvement::NotInvolved,
            };
        }
        i = i - 1;
    }
    proof {
        assert(pairs.take(0) =~= Seq::<(Seq<char>, ReviewerState)>::empty());
    }
    Involvement::NotInvolved
}

fn involvement_opt(r: &RawPr, viewer: Option<&str>) -> (inv: Involvement)
    ensures
        inv == involvement_for(*r, match viewer {
            Some(v) => Some(v@),
            None => None,
        }),
{
    match viewer {
        Some(v) => involvement(r, v),
        None => Involvement::NotInvolved,
    }
}

/// A pull request as the list view shows it. Timestamps are seconds since the Unix epoch.
#[derive(Debug, Clone)]
pub struct PrSummary {
    pub number: u32,
    pub title: String,
    pub author: String,
    pub head_ref: String,
    pub base_ref: String,
    pub is_draft: bool,
    pub mergeable: Mergeable,
    pub created_at: Option<i64>,
    pub updated_at: Option<i64>,
    pub url: String,
    pub review: ReviewState,
    pub checks: CheckRollup,
    pub involvement: Involvement,
}

impl PrSummary {
    /// Whether this summary is the one that `r` gives, apart from the viewer's involvement.
    pub open spec fn summarizes(&self, r: RawPr) -> bool {
        &&& self.number == r.number
        &&& self.title@ == r.title@
        &&& self.author@ == r.author.login@
        &&& self.head_ref@ == r.head_ref@
        &&& self.base_ref@ == r.base_ref@
        &&& self.is_draft == r.is_draft
        &&& self.mergeable == mergeable_of(r.mergeable@)
        &&& self.created_at == r.created_at
        &&& self.updated_at == r.updated_at
        &&& self.url@ == r.url@
        &&& self.review == review_state_of(r.review_decision@)
        &&& self.checks.rolls_up(r.status_check_rollup@)
    }

    /// The summary of a pull request, with no viewer involved.
    pub fn from(r: &RawPr) -> (s: PrSummary)
        requires
            counts_fit(r.status_check_rollup@),
        ensures
            s.summarizes(*r),
            s.involvement == Involvement::NotInvolved,
    {
        PrSummary {
            number: r.number,
            title: r.title.clone(),
            author: r.author.login.clone(),
            head_ref: r.head_ref.clone(),
            base_ref: r.base_ref.clone(),
            is_draft: r.is_draft,
            mergeable: Mergeable::from_str(r.mergeable.as_str()),
            created_at: r.created_at,
            updated_at: r.updated_at,
            url: r.url.clone(),
            review: ReviewState::from_decision(r.review_decision.as_str()),
            checks: CheckRollup::from_raw(r.status_check_rollup.as_slice()),
            involvement: Involvement::NotInvolved,
        }
    }

    /// The summary of a pull request together with how `viewer` is involved in it.
    pub fn for_viewer(r: &RawPr, viewer: Option<&str>) -> (s: PrSummary)
        requires
            counts_fit(r.status_check_rollup@),
        ensures
            s.summarizes(*r),
            s.involvement == involvement_for(*r, match viewer {
                Some(v) => Some(v@),
                None => None,
            }),
    {
        let mut s = PrSummary::from(r);
        s.involvement = involvement_opt(r, viewer);
        s
    }
}

/// The summaries of a list of pull requests, in order, for an optional viewer.
pub fn summaries(raws: &Vec<RawPr>, viewer: Option<&str>) -> (out: Vec<PrSummary>)
    requires
        forall|i: int| 0 <= i < raws.len() ==> counts_fit(#[trigger] raws@[i].status_check_rollup@),
    ensures
        out.len() == raws.len(),
        forall|i: int|
            0 <= i < raws.len() ==> {
                &&& (#[trigger] out@[i]).summarizes(raws@[i])
                &&& out@[i].involvement == involvement_for(raws@[i], match viewer {
                    Some(v) => Some(v@),
                    None => None,
                })
            },
{
    let mut out: Vec<PrSummary> = Vec::new();
    let mut i: usize = 0;
    while i < raws.len()
        invariant
            i <= raws.len(),
            out.len() == i,
            forall|j: int| 0 <= j < raws.len() ==> counts_fit(#[trigger] raws@[j].status_check_rollup@),
            forall|j: int|
                0 <= j < i ==> {
                    &&& (#[trigger] out@[j]).summarizes(raws@[j])
                    &&& out@[j].involvement == involvement_for(raws@[j], match viewer {
                        Some(v) => Some(v@),
                        None => None,
                    })
                },
        decreases raws.len() - i,
    {
        out.push(PrSummary::for_viewer(&raws[i], viewer));
        i = i + 1;
    }
    out
}

/// A pull request as the detail view shows it.
#[derive(Debug, Clone)]
pub struct PrDetail {
    pub summary: PrSummary,
    pub body: String,
    pub additions: u32,
    pub deletions: u32,
    pub changed_files: u32,
    pub checks: Vec<CheckRun>,
    pub reviewers: Vec<Reviewer>,
}

/// An optional count, zero standing for `None`.
pub open spec fn count_or_zero(o: Option<u32>) -> u32 {
    match o {
        Some(n) => n,
        None => 0,
    }
}

fn add_requests(out: &mut Vec<Reviewer>, reqs: &Vec<RawReviewer>)
    ensures
        reviewer_pairs(final(out)@) == with_requests(reviewer_pairs(old(out)@), reqs@),
{
    let ghost base = reviewer_pairs(out@);
    let mut k: usize = 0;
    while k < reqs.len()
        invariant
            k <= reqs.len(),
            reviewer_pairs(out@) == with_requests(base, reqs@.take(k as int)),
        decreases reqs.len() - k,
    {
        let req = &reqs[k];
        proof {
            assert(reqs@.take(k + 1).drop_last() =~= reqs@.take(k as int));
        }
        let login = if req.login.as_str().is_empty() {
            match &req.name {
                Some(n) => n.clone(),
                None => String::new(),
            }
        } else {
            req.login.clone()
        };
        assert(login@ == request_login(*req));
        if !login.as_str().is_empty() && !lists_login(out, &login) {
            let ghost prev = reviewer_pairs(out@);
            out.push(Reviewer { login, state: ReviewerState::Pending });
            proof {
                assert(reviewer_pairs(out@) =~= prev.push((request_login(*req), ReviewerState::Pending)));
            }
        }
        k = k + 1;
    }
    proof {
        assert(reqs@.take(reqs.len() as int) =~= reqs@);
    }
}

impl PrDetail {
    /// Whether this detail is the one that `r` gives, apart from the viewer's involvement.
    pub open spec fn details(&self, r: RawPr) -> bool {
        &&& self.summary.summarizes(r)
        &&& self.body@ == text_or_empty(opt_text(r.body))
        &&& self.additions == count_or_zero(r.additions)
        &&& self.deletions == count_or_zero(r.deletions)
        &&& self.changed_files == count_or_zero(r.changed_files)
        &&& self.checks.len() == r.status_check_rollup.len()
        &&& forall|i: int|
            0 <= i < self.checks.len() ==> (#[trigger] self.checks@[i]).describes(
                r.status_check_rollup@[i],
            )
        &&& reviewer_pairs(self.reviewers@) == reviewers_of(r)
    }

    /// The detail of a pull request, with no viewer involved: its summary, its
    /// description, its diff size, each of its checks, and its participants (those
    /// who reviewed, then each requested participant not already listed, as pending).
    pub fn from(r: &RawPr) -> (d: PrDetail)
        requires
            counts_fit(r.status_check_rollup@),
        ensures
            d.details(*r),
            d.summary.involvement == Involvement::NotInvolved,
    {
        let mut reviewers = reviewed_list(&r.latest_reviews);
        add_requests(&mut reviewers, &r.review_requests);
        let mut checks: Vec<CheckRun> = Vec::new();
        let mut i: usize = 0;
        while i < r.status_check_rollup.len()
            invariant
                i <= r.status_check_rollup.len(),
                checks.len() == i,
                forall|j: int|
                    0 <= j < i ==> (#[trigger] checks@[j]).describes(r.status_check_rollup@[j]),
            decreases r.status_check_rollup.len() - i,
        {
            checks.push(CheckRun::from(&r.status_check_rollup[i]));
            i = i + 1;
        }
        let body = match &r.body {
            Some(b) => b.clone(),
            None => String::new(),
        };
        PrDetail {
            summary: PrSummary::from(r),
            body,
            additions: match r.additions {
                Some(n) => n,
                None => 0,
            },
            deletions: match r.deletions {
                Some(n) => n,
                None => 0,
            },
            changed_files: match r.changed_files {
                Some(n) => n,
                None => 0,
            },
            checks,
            reviewers,
        }
    }

    /// The detail of a pull request together with how `viewer` is involved in it.
    pub fn for_viewer(r: &RawPr, viewer: Option<&str>) -> (d: PrDetail)
        requires
            counts_fit(r.status_check_rollup@),
        ensures
            d.details(*r),
            d.summary.involvement == involvement_for(*r, match viewer {
                Some(v) => Some(v@),
                None => None,
            }),
    {
        let mut d = PrDetail::from(r);
        d.summary.involvement = involvement_opt(r, viewer);
        d
    }
}

/// No entry that a review gives is pending.
pub proof fn lemma_reviewed_not_pending(reviews: Seq<RawReview>)
    ensures
        forall|i: int|
            0 <= i < reviewed(reviews).len() ==> (#[trigger] reviewed(reviews)[i]).1
                != ReviewerState::Pending,
    decreases reviews.len(),
{
    if reviews.len() > 0 {
        lemma_reviewed_not_pending(reviews.drop_last());
    }
}

/// Adding requested participants keeps `base` in front; every added entry is
/// pending under a non-empty login that occurs nowhere else in the list and
/// that was requested; and every non-empty requested login ends up listed.
pub proof fn lemma_with_requests(base: Seq<(Seq<char>, ReviewerState)>, reqs: Seq<RawReviewer>)
    ensures
        with_requests(base, reqs).len() >= base.len(),
        with_requests(base, reqs).take(base.len() as int) == base,
        forall|i: int|
            base.len() <= i < with_requests(base, reqs).len() ==> {
                &&& (#[trigger] with_requests(base, reqs)[i]).1 == ReviewerState::Pending
                &&& with_requests(base, reqs)[i].0.len() > 0
                &&& exists|k: int| 0 <= k < reqs.len() && request_login(#[trigger] reqs[k]) == with_requests(base, reqs)[i].0
                &&& forall|j: int|
                    0 <= j < with_requests(base, reqs).len() && j != i ==> (#[trigger] with_requests(base, reqs)[j]).0
                        != with_requests(base, reqs)[i].0
            },
        forall|k: int|
            0 <= k < reqs.len() && request_login(#[trigger] reqs[k]).len() > 0 ==> has_login(
                with_requests(base, reqs),
                request_login(reqs[k]),
            ),
    decreases reqs.len(),
{
    if reqs.len() == 0 {
        assert(base.take(base.len() as int) =~= base);
    } else {
        let init = reqs.drop_last();
        lemma_with_requests(base, init);
        let prev = with_requests(base, init);
        let out = with_requests(base, reqs);
        let login = request_login(reqs.last());
        assert forall|k: int| 0 <= k < init.len() implies #[trigger] init[k] == reqs[k] by {}
        if login.len() == 0 || has_login(prev, login) {
            assert(out == prev);
            assert forall|i: int| #![trigger out[i]] base.len() <= i < out.len() implies exists|k: int|
                0 <= k < reqs.len() && request_login(#[trigger] reqs[k]) == out[i].0 by {
                let k = choose|k: int| 0 <= k < init.len() && request_login(#[trigger] init[k]) == prev[i].0;
                assert(reqs[k] == init[k]);
            }
            assert forall|k: int|
                0 <= k < reqs.len() && request_login(#[trigger] reqs[k]).len() > 0 implies has_login(
                out,
                request_login(reqs[k]),
            ) by {
                if k < init.len() {
                    assert(reqs[k] == init[k]);
                }
            }
        } else {
            assert(out == prev.push((login, ReviewerState::Pending)));
            assert(out.take(base.len() as int) =~= prev.take(base.len() as int));
            assert forall|i: int| base.len() <= i < out.len() implies {
                &&& (#[trigger] out[i]).1 == ReviewerState::Pending
                &&& out[i].0.len() > 0
                &&& exists|k: int| 0 <= k < reqs.len() && request_login(#[trigger] reqs[k]) == out[i].0
                &&& forall|j: int| 0 <= j < out.len() && j != i ==> (#[trigger] out[j]).0 != out[i].0
            } by {
                if i < prev.len() {
                    assert(out[i] == prev[i]);
                    let k = choose|k: int| 0 <= k < init.len() && request_login(#[trigger] init[k]) == prev[i].0;
                    assert(reqs[k] == init[k]);
                    assert forall|j: int| 0 <= j < out.len() && j != i implies (#[trigger] out[j]).0 != out[i].0 by {
                        if j < prev.len() {
                            assert(out[j] == prev[j]);
                        } else {
                            assert(out[j].0 == login);
                            if login == prev[i].0 {
                                assert(has_login(prev, login));
                            }
                        }
                    }
                } else {
                    assert(out[i].0 == login);
                    assert(request_login(reqs[reqs.len() - 1]) == login);
                    assert forall|j: int| 0 <= j < out.len() && j != i implies (#[trigger] out[j]).0 != out[i].0 by {
                        assert(out[j] == prev[j]);
                        if prev[j].0 == login {
                            assert(has_login(prev, login));
                        }
                    }
                }
            }
            assert forall|k: int|
                0 <= k < reqs.len() && request_login(#[trigger] reqs[k]).len() > 0 implies has_login(
                out,
                request_login(reqs[k]),
            ) by {
                if k < init.len() {
                    assert(reqs[k] == init[k]);
                    let i = choose|i: int| 0 <= i < prev.len() && #[trigger] prev[i].0 == request_login(init[k]);
                    assert(out[i] == prev[i]);
                } else {
                    assert(out[prev.len() as int].0 == login);
                }
            }
        }
    }
}

/// The participants of a pull request list, first, an entry for each review that
/// gives a verdict or a comment, in order and never pending; then, each
/// non-empty requested login not already listed, once, as pending. Every
/// non-empty requested login is listed.
pub proof fn lemma_reviewers_of(r: RawPr)
    ensures
        reviewers_of(r).take(reviewed(r.latest_reviews@).len() as int) == reviewed(r.latest_reviews@),
        forall|i: int|
            0 <= i < reviewed(r.latest_reviews@).len() ==> (#[trigger] reviewers_of(r)[i]).1
                != ReviewerState::Pending,
        forall|i: int|
            reviewed(r.latest_reviews@).len() <= i < reviewers_of(r).len() ==> {
                &&& (#[trigger] reviewers_of(r)[i]).1 == ReviewerState::Pending
                &&& reviewers_of(r)[i].0.len() > 0
                &&& forall|j: int|
                    0 <= j < reviewers_of(r).len() && j != i ==> (#[trigger] reviewers_of(r)[j]).0
                        != reviewers_of(r)[i].0
            },
        forall|k: int|
            0 <= k < r.review_requests.len() && request_login(#[trigger] r.review_requests@[k]).len()
                > 0 ==> has_login(reviewers_of(r), request_login(r.review_requests@[k])),
{
    let base = reviewed(r.latest_reviews@);
    lemma_with_requests(base, r.review_requests@);
    lemma_reviewed_not_pending(r.latest_reviews@);
    assert forall|i: int| 0 <= i < base.len() implies (#[trigger] reviewers_of(r)[i]).1
        != ReviewerState::Pending by {
        assert(reviewers_of(r).take(base.len() as int)[i] == reviewers_of(r)[i]);
        assert(base[i].1 != ReviewerState::Pending);
    }
}

/// The four counts of a rollup add up to the number of check entries.
pub proof fn lemma_rollup_total(rollup: CheckRollup, entries: Seq<RawCheck>)
    requires
        rollup.rolls_up(entries),
    ensures
        rollup.passing + rollup.failing + rollup.pending + rollup.skipped == entries.len(),
{
    lemma_counts_sum(classes(entries));
}

/// The overall state of a rollup follows its counts: none exactly for no
/// entries; failing whenever a check fails; pending when none fails and one is
/// pending; passing when none fails or is pending and one passes.
pub proof fn lemma_rollup_overall(rollup: CheckRollup, entries: Seq<RawCheck>)
    requires
        rollup.rolls_up(entries),
    ensures
        rollup.overall is None <==> entries.len() == 0,
        entries.len() > 0 ==> (rollup.overall == Some(CheckState::Fail) <==> rollup.failing > 0),
        entries.len() > 0 ==> (rollup.overall == Some(CheckState::Pending) <==> rollup.failing == 0
            && rollup.pending > 0),
        entries.len() > 0 ==> (rollup.overall == Some(CheckState::Pass) <==> rollup.failing == 0
            && rollup.pending == 0 && rollup.passing > 0),
        entries.len() > 0 ==> (rollup.overall == Some(CheckState::NoState) <==> rollup.failing
            == 0 && rollup.pending == 0 && rollup.passing == 0),
{
}

/// Removing one entry lowers the count of its state by one and leaves the
/// other counts as they were.
proof fn lemma_count_remove(e: Seq<RawCheck>, j: int, st: CheckState)
    requires
        0 <= j < e.len(),
    ensures
        count_state(classes(e), st) == count_state(classes(e.remove(j)), st) + if e[j].spec_class()
            == st {
            1nat
        } else {
            0nat
        },
    decreases e.len(),
{
    assert(classes(e).drop_last() =~= classes(e.drop_last()));
    if j == e.len() - 1 {
        assert(e.remove(j) =~= e.drop_last());
    } else {
        lemma_count_remove(e.drop_last(), j, st);
        assert(e.remove(j).drop_last() =~= e.drop_last().remove(j));
        assert(classes(e.remove(j)).drop_last() =~= classes(e.remove(j).drop_last()));
        assert(e.remove(j).last() == e.last());
    }
}

/// Two orderings of the same check entries have the same count of every state.
proof fn lemma_counts_order_free(e1: Seq<RawCheck>, e2: Seq<RawCheck>)
    requires
        e1.to_multiset() == e2.to_multiset(),
    ensures
        e1.len() == e2.len(),
        forall|st: CheckState| count_state(classes(e1), st) == #[trigger] count_state(classes(e2), st),
    decreases e1.len(),
{
    broadcast use vstd::seq_lib::group_to_multiset_ensures;

    vstd::seq_lib::to_multiset_len(e1);
    vstd::seq_lib::to_multiset_len(e2);
    if e1.len() == 0 {
        assert(e2.len() == 0);
    } else {
        let x = e1.last();
        let init = e1.drop_last();
        assert(init.push(x) =~= e1);
        assert(e1.to_multiset() == init.to_multiset().insert(x));
        assert(e2.to_multiset().count(x) > 0);
        assert(e2.contains(x));
        let j = choose|j: int| 0 <= j < e2.len() && e2[j] == x;
        assert(e2.remove(j).to_multiset() == e2.to_multiset().remove(x));
        assert(init.to_multiset() =~= e1.to_multiset().remove(x));
        lemma_counts_order_free(init, e2.remove(j));
        assert forall|st: CheckState| count_state(classes(e1), st) == #[trigger] count_state(
            classes(e2),
            st,
        ) by {
            lemma_count_remove(e2, j, st);
            assert(classes(e1).drop_last() =~= classes(init));
        }
    }
}

/// The order of the check entries never matters: two rollups of the same
/// entries in any order agree on every count and on the overall state.
pub proof fn lemma_rollup_order_free(
    r1: CheckRollup,
    r2: CheckRollup,
    e1: Seq<RawCheck>,
    e2: Seq<RawCheck>,
)
    requires
        r1.rolls_up(e1),
        r2.rolls_up(e2),
        e1.to_multiset() == e2.to_multiset(),
    ensures
        r1.passing == r2.passing,
        r1.failing == r2.failing,
        r1.pending == r2.pending,
        r1.skipped == r2.skipped,
        r1.overall == r2.overall,
{
    lemma_counts_order_free(e1, e2);
    assert(count_state(classes(e1), CheckState::Pass) == count_state(classes(e2), CheckState::Pass));
    assert(count_state(classes(e1), CheckState::Fail) == count_state(classes(e2), CheckState::Fail));
    assert(count_state(classes(e1), CheckState::Pending) == count_state(
        classes(e2),
        CheckState::Pending,
    ));
    assert(count_state(classes(e1), CheckState::NoState) == count_state(
        classes(e2),
        CheckState::NoState,
    ));
}

/// A review requested from the viewer marks the pull request as awaiting
/// the viewer, wherever that request stands in the list and whatever the
/// viewer's own reviews say.
pub proof fn lemma_requested_anywhere(r: RawPr, viewer: Seq<char>, i: int)
    requires
        viewer.len() > 0,
        0 <= i < r.review_requests.len(),
        r.review_requests@[i].login@ == viewer,
    ensures
        involvement_of(r, viewer) == Involvement::ReviewRequested,
{
}

/// The viewer counts as asked to review only when some request names them.
pub proof fn lemma_requested_only_if_asked(r: RawPr, viewer: Seq<char>)
    requires
        involvement_of(r, viewer) == Involvement::ReviewRequested,
    ensures
        viewer.len() > 0,
        exists|i: int| 0 <= i < r.review_requests.len() && #[trigger] r.review_requests@[i].login@ == viewer,
{
}

proof fn lemma_own_review_absent(rs: Seq<(Seq<char>, ReviewerState)>, viewer: Seq<char>)
    requires
        forall|i: int| 0 <= i < rs.len() ==> #[trigger] rs[i].0 != viewer,
    ensures
        own_review(rs, viewer) is None,
    decreases rs.len(),
{
    if rs.len() > 0 {
        assert forall|i: int| 0 <= i < rs.drop_last().len() implies #[trigger] rs.drop_last()[i].0 != viewer by {
            assert(rs.drop_last()[i] == rs[i]);
        }
        lemma_own_review_absent(rs.drop_last(), viewer);
    }
}

proof fn lemma_reviewed_authors(reviews: Seq<RawReview>, viewer: Seq<char>)
    requires
        forall|i: int| 0 <= i < reviews.len() ==> #[trigger] reviews[i].author.login@ != viewer,
    ensures
        forall|i: int| 0 <= i < reviewed(reviews).len() ==> #[trigger] reviewed(reviews)[i].0 != viewer,
    decreases reviews.len(),
{
    if reviews.len() > 0 {
        let init = reviews.drop_last();
        assert forall|i: int| 0 <= i < init.len() implies #[trigger] init[i].author.login@ != viewer by {
            assert(init[i] == reviews[i]);
        }
        lemma_reviewed_authors(init, viewer);
        let last = reviews.last();
        assert(last.author.login@ != viewer);
        let rs = reviewed(reviews);
        let prev = reviewed(init);
        assert forall|i: int| 0 <= i < rs.len() implies #[trigger] rs[i].0 != viewer by {
            match reviewer_state_of(last.state@) {
                Some(st) => {
                    assert(rs == prev.push((last.author.login@, st)));
                    if i < prev.len() {
                        assert(rs[i] == prev[i]);
                    }
                },
                None => {
                    assert(rs == prev);
                },
            }
        }
    }
}

/// A viewer who was not asked to review and wrote none of the latest reviews
/// is not involved.
pub proof fn lemma_uninvolved_viewer(r: RawPr, viewer: Seq<char>)
    requires
        forall|i: int| 0 <= i < r.review_requests.len() ==> #[trigger] r.review_requests@[i].login@ != viewer,
        forall|i: int| 0 <= i < r.latest_reviews.len() ==> #[trigger] r.latest_reviews@[i].author.login@ != viewer,
    ensures
        involvement_of(r, viewer) == Involvement::NotInvolved,
{
    lemma_reviewed_authors(r.latest_reviews@, viewer);
    lemma_own_review_absent(reviewed(r.latest_reviews@), viewer);
}

/// When the viewer was not asked to review, their last verdict decides: an
/// approval shows as approved, a request for changes as awaiting the author,
/// a comment as commented, whatever reviews came before it.
pub proof fn lemma_last_verdict_decides(r: RawPr, viewer: Seq<char>, i: int)
    requires
        viewer.len() > 0,
        forall|k: int| 0 <= k < r.review_requests.len() ==> #[trigger] r.review_requests@[k].login@ != viewer,
        0 <= i < r.latest_reviews.len(),
        r.latest_reviews@[i].author.login@ == viewer,
        reviewer_state_of(r.latest_reviews@[i].state@) is Some,
        forall|k: int| i < k < r.latest_reviews.len() ==> #[trigger] r.latest_reviews@[k].author.login@ != viewer,
    ensures
        reviewer_state_of(r.latest_reviews@[i].state@) == Some(ReviewerState::Approved)
            ==> involvement_of(r, viewer) == Involvement::Approved,
        reviewer_state_of(r.latest_reviews@[i].state@) == Some(ReviewerState::ChangesRequested)
            ==> involvement_of(r, viewer) == Involvement::AwaitingAuthor,
        reviewer_state_of(r.latest_reviews@[i].state@) == Some(ReviewerState::Commented)
            ==> involvement_of(r, viewer) == Involvement::Commented,
{
    let reviews = r.latest_reviews@;
    let st = reviewer_state_of(reviews[i].state@).unwrap();
    lemma_tail_verdict(reviews, viewer, i);
    assert(own_review(reviewed(reviews), viewer) == Some(st));
}

proof fn lemma_tail_verdict(reviews: Seq<RawReview>, viewer: Seq<char>, i: int)
    requires
        0 <= i < reviews.len(),
        reviews[i].author.login@ == viewer,
        reviewer_state_of(reviews[i].state@) is Some,
        forall|k: int| i < k < reviews.len() ==> #[trigger] reviews[k].author.login@ != viewer,
    ensures
        own_review(reviewed(reviews), viewer) == reviewer_state_of(reviews[i].state@),
    decreases reviews.len(),
{
    let init = reviews.drop_last();
    if i == reviews.len() - 1 {
        let st = reviewer_state_of(reviews.last().state@).unwrap();
        assert(reviewed(reviews) == reviewed(init).push((reviews.last().author.login@, st)));
    } else {
        assert forall|k: int| i < k < init.len() implies #[trigger] init[k].author.login@ != viewer by {
            assert(init[k] == reviews[k]);
        }
        assert(init[i] == reviews[i]);
        lemma_tail_verdict(init, viewer, i);
        let last = reviews.last();
        assert(last.author.login@ != viewer);
        match reviewer_state_of(last.state@) {
            Some(st) => {
                let rs = reviewed(reviews);
                assert(rs == reviewed(init).push((last.author.login@, st)));
                assert(rs.drop_last() =~= reviewed(init));
            },
            None => {},
        }
    }
}

/// A legacy status context is classified by its `state` alone: two entries
/// with the same state word agree, whatever their status and conclusion.
pub proof fn lemma_state_decides(a: RawCheck, b: RawCheck)
    requires
        opt_text(a.state) is Some,
        opt_text(a.state) == opt_text(b.state),
    ensures
        a.spec_class() == b.spec_class(),
{
}

/// A check run that is still running (a status other than `COMPLETED`) is
/// pending, whatever its conclusion says.
pub proof fn lemma_running_is_pending(c: RawCheck)
    requires
        opt_text(c.state) is None,
        opt_text(c.status) matches Some(st) && st.len() > 0 && st != "COMPLETED"@,
    ensures
        c.spec_class() == CheckState::Pending,
{
}

/// A completed run and a run without status are classified alike: by the conclusion.
pub proof fn lemma_completed_goes_by_conclusion(a: RawCheck, b: RawCheck)
    requires
        opt_text(a.state) is None,
        opt_text(b.state) is None,
        opt_text(a.status) == Some("COMPLETED"@),
        opt_text(b.status) is None,
        opt_text(a.conclusion) == opt_text(b.conclusion),
    ensures
        a.spec_class() == b.spec_class(),
{
}

} // verus!
