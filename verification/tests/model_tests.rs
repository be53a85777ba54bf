use prq::model::{
    summaries, CheckRollup, CheckRun, CheckState, Involvement, Mergeable, PrDetail, PrSummary,
    RawAuthor, RawCheck, RawPr, RawReview, RawReviewer, ReviewState, ReviewerState,
};

fn check(name: &str, status: Option<&str>, conclusion: Option<&str>) -> RawCheck {
    RawCheck {
        name: Some(name.to_string()),
        context: None,
        status: status.map(|s| s.to_string()),
        conclusion: conclusion.map(|s| s.to_string()),
        state: None,
        url: None,
    }
}

fn review(login: &str, state: &str) -> RawReview {
    RawReview { author: RawAuthor { login: login.to_string() }, state: state.to_string() }
}

fn request(login: &str, name: Option<&str>) -> RawReviewer {
    RawReviewer { login: login.to_string(), name: name.map(|s| s.to_string()) }
}

fn raw_pr(number: u32) -> RawPr {
    RawPr {
        number,
        title: String::new(),
        author: RawAuthor { login: String::new() },
        head_ref: String::new(),
        base_ref: String::new(),
        is_draft: false,
        mergeable: String::new(),
        created_at: None,
        updated_at: None,
        url: String::new(),
        review_decision: String::new(),
        status_check_rollup: Vec::new(),
        review_requests: Vec::new(),
        latest_reviews: Vec::new(),
        body: None,
        additions: None,
        deletions: None,
        changed_files: None,
    }
}

/// The four pull requests of the list fixture: approved with two passing
/// checks, changes requested with one failing and one passing check, review
/// required with a running check, and a draft with no checks.
fn list_fixture() -> Vec<RawPr> {
    let mut approved = raw_pr(101);
    approved.title = "Refactor auth middleware".to_string();
    approved.author = RawAuthor { login: "alice".to_string() };
    approved.head_ref = "auth-rfc".to_string();
    approved.mergeable = "MERGEABLE".to_string();
    approved.review_decision = "APPROVED".to_string();
    approved.status_check_rollup = vec![
        check("build", Some("COMPLETED"), Some("SUCCESS")),
        check("test", Some("COMPLETED"), Some("SUCCESS")),
    ];

    let mut changes = raw_pr(102);
    changes.author = RawAuthor { login: "bob".to_string() };
    changes.mergeable = "CONFLICTING".to_string();
    changes.review_decision = "CHANGES_REQUESTED".to_string();
    changes.status_check_rollup = vec![
        check("build", Some("COMPLETED"), Some("FAILURE")),
        check("lint", Some("COMPLETED"), Some("SUCCESS")),
    ];

    let mut pending = raw_pr(103);
    pending.author = RawAuthor { login: "carol".to_string() };
    pending.mergeable = "UNKNOWN".to_string();
    pending.review_decision = "REVIEW_REQUIRED".to_string();
    pending.status_check_rollup = vec![
        check("build", Some("IN_PROGRESS"), None),
        check("lint", Some("COMPLETED"), Some("SUCCESS")),
    ];

    let mut draft = raw_pr(104);
    draft.author = RawAuthor { login: "dave".to_string() };
    draft.is_draft = true;
    vec![approved, changes, pending, draft]
}

#[test]
fn rollup_empty_is_none() {
    let r = CheckRollup::from_raw(&[]);
    assert_eq!(r.overall, None);
}

#[test]
fn rollup_fail_beats_pending() {
    let raws = vec![
        RawCheck {
            name: Some("a".into()),
            context: None,
            status: Some("COMPLETED".into()),
            conclusion: Some("FAILURE".into()),
            state: None,
            url: None,
        },
        RawCheck {
            name: Some("b".into()),
            context: None,
            status: Some("IN_PROGRESS".into()),
            conclusion: None,
            state: None,
            url: None,
        },
    ];
    assert_eq!(CheckRollup::from_raw(&raws).overall, Some(CheckState::Fail));
}

#[test]
fn status_context_shape_is_parsed() {
    let raw = RawCheck {
        name: None,
        context: Some("legacy/ci".into()),
        status: None,
        conclusion: None,
        state: Some("SUCCESS".into()),
        url: Some("https://example.com".into()),
    };
    assert_eq!(raw.classify(), CheckState::Pass);
    assert_eq!(raw.label(), "legacy/ci");
}

#[test]
fn parses_list_fixture() {
    let prs = summaries(&list_fixture(), None);
    assert_eq!(prs.len(), 4);

    let approved = &prs[0];
    assert_eq!(approved.number, 101);
    assert_eq!(approved.review, ReviewState::Approved);
    assert_eq!(approved.checks.overall, Some(CheckState::Pass));
    assert_eq!(approved.checks.passing, 2);
    assert_eq!(approved.author, "alice");
    assert!(!approved.is_draft);
    assert_eq!(approved.mergeable, Mergeable::Mergeable);

    let changes = &prs[1];
    assert_eq!(changes.review, ReviewState::ChangesRequested);
    assert_eq!(changes.checks.overall, Some(CheckState::Fail));
    assert_eq!(changes.checks.failing, 1);
    assert_eq!(changes.checks.passing, 1);

    let pending = &prs[2];
    assert_eq!(pending.review, ReviewState::ReviewRequired);
    assert_eq!(pending.checks.overall, Some(CheckState::Pending));
    assert!(pending.checks.pending >= 1);

    let draft = &prs[3];
    assert!(draft.is_draft);
    assert_eq!(draft.review, ReviewState::NoState);
    assert_eq!(draft.checks.overall, None);
}

#[test]
fn parses_view_fixture() {
    let mut raw = raw_pr(101);
    raw.additions = Some(120);
    raw.deletions = Some(30);
    raw.changed_files = Some(5);
    raw.status_check_rollup = vec![
        check("build", Some("COMPLETED"), Some("SUCCESS")),
        check("test", Some("COMPLETED"), Some("SUCCESS")),
    ];
    raw.latest_reviews = vec![review("erin", "APPROVED")];
    raw.review_requests = vec![request("frank", None)];
    let detail = PrDetail::from(&raw);
    assert_eq!(detail.summary.number, 101);
    assert_eq!(detail.additions, 120);
    assert_eq!(detail.deletions, 30);
    assert_eq!(detail.changed_files, 5);
    assert_eq!(detail.checks.len(), 2);
    assert!(detail.reviewers.iter().any(|r| r.state == ReviewerState::Approved));
    assert!(detail.reviewers.iter().any(|r| r.state == ReviewerState::Pending));
}

#[test]
fn review_decision_words() {
    assert_eq!(ReviewState::from_decision("APPROVED"), ReviewState::Approved);
    assert_eq!(ReviewState::from_decision("CHANGES_REQUESTED"), ReviewState::ChangesRequested);
    assert_eq!(ReviewState::from_decision("REVIEW_REQUIRED"), ReviewState::ReviewRequired);
    assert_eq!(ReviewState::from_decision(""), ReviewState::NoState);
    assert_eq!(ReviewState::from_decision("SOMETHING_ELSE"), ReviewState::Reviewed);
}

#[test]
fn mergeable_words() {
    assert_eq!(Mergeable::from_str("MERGEABLE"), Mergeable::Mergeable);
    assert_eq!(Mergeable::from_str("CONFLICTING"), Mergeable::Conflicting);
    assert_eq!(Mergeable::from_str("UNKNOWN"), Mergeable::Unknown);
    assert_eq!(Mergeable::from_str(""), Mergeable::Unknown);
}

#[test]
fn check_run_classification() {
    assert_eq!(check("a", Some("COMPLETED"), Some("SUCCESS")).classify(), CheckState::Pass);
    for c in ["FAILURE", "TIMED_OUT", "ACTION_REQUIRED", "STARTUP_FAILURE", "CANCELLED"] {
        assert_eq!(check("a", Some("COMPLETED"), Some(c)).classify(), CheckState::Fail);
    }
    for c in ["SKIPPED", "NEUTRAL", "STALE", "WHATEVER"] {
        assert_eq!(check("a", Some("COMPLETED"), Some(c)).classify(), CheckState::NoState);
    }
    assert_eq!(check("a", Some("COMPLETED"), None).classify(), CheckState::Pending);
    assert_eq!(check("a", Some("QUEUED"), Some("SUCCESS")).classify(), CheckState::Pending);
    assert_eq!(check("a", None, Some("FAILURE")).classify(), CheckState::Fail);
    assert_eq!(check("a", None, None).classify(), CheckState::Pending);
}

#[test]
fn status_context_classification() {
    let ctx = |state: &str| RawCheck {
        name: None,
        context: None,
        status: Some("IN_PROGRESS".to_string()),
        conclusion: None,
        state: Some(state.to_string()),
        url: None,
    };
    assert_eq!(ctx("SUCCESS").classify(), CheckState::Pass);
    assert_eq!(ctx("FAILURE").classify(), CheckState::Fail);
    assert_eq!(ctx("ERROR").classify(), CheckState::Fail);
    assert_eq!(ctx("PENDING").classify(), CheckState::Pending);
    assert_eq!(ctx("EXPECTED").classify(), CheckState::Pending);
    assert_eq!(ctx("OTHER").classify(), CheckState::NoState);
    assert_eq!(ctx("OTHER").label(), "check");
}

#[test]
fn label_prefers_name_over_context() {
    let mut c = check("named", None, None);
    c.context = Some("ctx".to_string());
    assert_eq!(c.label(), "named");
}

#[test]
fn rollup_counts_add_up_and_rank() {
    let raws = vec![
        check("a", Some("COMPLETED"), Some("SUCCESS")),
        check("b", Some("COMPLETED"), Some("SKIPPED")),
        check("c", Some("QUEUED"), None),
        check("d", Some("COMPLETED"), Some("SUCCESS")),
    ];
    let r = CheckRollup::from_raw(&raws);
    assert_eq!((r.passing, r.failing, r.pending, r.skipped), (2, 0, 1, 1));
    assert_eq!(r.overall, Some(CheckState::Pending));
    let only_skipped = CheckRollup::from_raw(&raws[1..2]);
    assert_eq!(only_skipped.overall, Some(CheckState::NoState));
    let passing = CheckRollup::from_raw(&[raws[0].clone(), raws[1].clone()]);
    assert_eq!(passing.overall, Some(CheckState::Pass));
}

#[test]
fn check_run_copies_label_state_and_url() {
    let mut c = check("build", Some("COMPLETED"), Some("FAILURE"));
    c.url = Some("https://ci/1".to_string());
    let run = CheckRun::from(&c);
    assert_eq!(run.name, "build");
    assert_eq!(run.state, CheckState::Fail);
    assert_eq!(run.url.as_deref(), Some("https://ci/1"));
}

#[test]
fn reviewers_merge_reviews_then_requests() {
    let mut raw = raw_pr(7);
    raw.latest_reviews = vec![
        review("ann", "APPROVED"),
        review("ben", "DISMISSED"),
        review("cat", "COMMENTED"),
        review("dan", "CHANGES_REQUESTED"),
    ];
    raw.review_requests = vec![
        request("cat", None),
        request("eve", None),
        request("", Some("core-team")),
        request("", None),
        request("eve", None),
    ];
    let d = PrDetail::from(&raw);
    let got: Vec<(String, ReviewerState)> =
        d.reviewers.iter().map(|r| (r.login.clone(), r.state)).collect();
    assert_eq!(
        got,
        vec![
            ("ann".to_string(), ReviewerState::Approved),
            ("cat".to_string(), ReviewerState::Commented),
            ("dan".to_string(), ReviewerState::ChangesRequested),
            ("eve".to_string(), ReviewerState::Pending),
            ("core-team".to_string(), ReviewerState::Pending),
        ]
    );
}

#[test]
fn detail_defaults_missing_numbers_and_body() {
    let raw = raw_pr(9);
    let d = PrDetail::from(&raw);
    assert_eq!(d.body, "");
    assert_eq!((d.additions, d.deletions, d.changed_files), (0, 0, 0));
    assert!(d.checks.is_empty());
    assert!(d.reviewers.is_empty());
}

#[test]
fn summary_copies_fields() {
    let mut raw = raw_pr(55);
    raw.title = "Title".to_string();
    raw.base_ref = "main".to_string();
    raw.url = "https://github.com/o/r/pull/55".to_string();
    raw.created_at = Some(100);
    raw.updated_at = Some(200);
    let s = PrSummary::from(&raw);
    assert_eq!(s.title, "Title");
    assert_eq!(s.base_ref, "main");
    assert_eq!(s.url, "https://github.com/o/r/pull/55");
    assert_eq!(s.created_at, Some(100));
    assert_eq!(s.updated_at, Some(200));
    assert_eq!(s.involvement, Involvement::NotInvolved);
}

#[test]
fn involvement_of_viewer() {
    let mut raw = raw_pr(1);
    raw.review_requests = vec![request("me", None)];
    raw.latest_reviews = vec![review("me", "APPROVED")];
    assert_eq!(PrSummary::for_viewer(&raw, Some("me")).involvement, Involvement::ReviewRequested);

    raw.review_requests = vec![];
    assert_eq!(PrSummary::for_viewer(&raw, Some("me")).involvement, Involvement::Approved);
    raw.latest_reviews = vec![review("me", "CHANGES_REQUESTED")];
    assert_eq!(PrSummary::for_viewer(&raw, Some("me")).involvement, Involvement::AwaitingAuthor);
    raw.latest_reviews = vec![review("me", "COMMENTED")];
    assert_eq!(PrSummary::for_viewer(&raw, Some("me")).involvement, Involvement::Commented);
    raw.latest_reviews = vec![review("you", "APPROVED")];
    assert_eq!(PrSummary::for_viewer(&raw, Some("me")).involvement, Involvement::NotInvolved);
    assert_eq!(PrSummary::for_viewer(&raw, None).involvement, Involvement::NotInvolved);
    assert_eq!(PrSummary::for_viewer(&raw, Some("")).involvement, Involvement::NotInvolved);

    let detail = PrDetail::for_viewer(&raw, Some("you"));
    assert_eq!(detail.summary.involvement, Involvement::Approved);
}

#[test]
fn rollup_ignores_order() {
    let a = vec![
        check("a", Some("COMPLETED"), Some("SUCCESS")),
        check("b", Some("COMPLETED"), Some("FAILURE")),
        check("c", Some("QUEUED"), None),
        check("d", Some("COMPLETED"), Some("SKIPPED")),
    ];
    let mut b = a.clone();
    b.reverse();
    b.swap(0, 2);
    let (ra, rb) = (CheckRollup::from_raw(&a), CheckRollup::from_raw(&b));
    assert_eq!(
        (ra.passing, ra.failing, ra.pending, ra.skipped, ra.overall),
        (rb.passing, rb.failing, rb.pending, rb.skipped, rb.overall)
    );
}
