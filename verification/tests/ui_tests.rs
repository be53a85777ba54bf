use std::time::Duration;

use prq::app::{App, ViewMode};
use prq::clock::{epoch_reading, unix_now};
use prq::gh::{login_from_output, repo_from_output};
use prq::model::{
    CheckRollup, CheckState, Involvement, Mergeable, PrDetail, PrSummary, RawAuthor, RawPr,
    ReviewState, ReviewerState,
};
use prq::ui::detail::{description_text, draft_mark, mergeable_cell};
use prq::ui::list::number_cell;
use prq::ui::{
    check_state_span, checks_cell, format_age, format_age_at, format_elapsed, format_elapsed_secs,
    header_line, involvement_cell, review_cell, reviewer_cell, Footer, Tone,
};

fn raw_pr(number: u32) -> RawPr {
    RawPr {
        number,
        title: "T".to_string(),
        author: RawAuthor { login: "alice".to_string() },
        head_ref: "feat".to_string(),
        base_ref: "main".to_string(),
        is_draft: false,
        mergeable: String::new(),
        created_at: None,
        updated_at: None,
        url: String::new(),
        review_decision: String::new(),
        status_check_rollup: Vec::new(),
        review_requests: Vec::new(),
        latest_reviews: Vec::new(),
        body: None,
        additions: Some(120),
        deletions: Some(30),
        changed_files: Some(5),
    }
}

#[test]
fn elapsed_units() {
    assert_eq!(format_elapsed_secs(0), "0s");
    assert_eq!(format_elapsed_secs(59), "59s");
    assert_eq!(format_elapsed_secs(60), "1m");
    assert_eq!(format_elapsed_secs(3599), "59m");
    assert_eq!(format_elapsed_secs(3600), "1h");
    assert_eq!(format_elapsed_secs(86_399), "23h");
    assert_eq!(format_elapsed_secs(86_400), "1d");
    assert_eq!(format_elapsed_secs(10 * 86_400 + 5), "10d");
    assert_eq!(format_elapsed(Duration::from_secs(90)), "1m");
    assert_eq!(format_elapsed(Duration::from_millis(14_900)), "14s");
    assert_eq!(format_elapsed(Duration::from_secs(2 * 86_400)), "2d");
    assert_eq!(format_elapsed(Duration::from_secs(7_300)), "2h");
}

#[test]
fn ages() {
    assert_eq!(format_age_at(None, 1000, 0), "—");
    assert_eq!(format_age_at(Some(1000), 1000, 0), "0s");
    assert_eq!(format_age_at(Some(1001), 1000, 0), "just now");
    assert_eq!(format_age_at(Some(1001), 1000, 500_000_000), "0s");
    assert_eq!(format_age_at(Some(1002), 1000, 500_000_000), "just now");
    assert_eq!(format_age_at(Some(940), 1000, 999_999_999), "1m");
    assert_eq!(format_age_at(Some(0), 7200, 0), "2h");
    assert_eq!(format_age_at(Some(i64::MIN), i64::MAX, 0), "213503982334601d");
    assert_eq!(format_age(None), "—");
    assert_eq!(format_age(Some(i64::MAX)), "just now");
    assert_eq!(format_age(Some(0)).chars().last(), Some('d'));
}

#[test]
fn glyphs() {
    let g = review_cell(ReviewState::Approved);
    assert_eq!((g.symbol, g.tone), ("✓", Tone::Green));
    assert_eq!(review_cell(ReviewState::ChangesRequested).symbol, "✗");
    assert_eq!(review_cell(ReviewState::ReviewRequired).symbol, "●");
    assert_eq!(review_cell(ReviewState::Reviewed).symbol, "·");
    assert_eq!(review_cell(ReviewState::NoState).tone, Tone::Dim);

    let empty = CheckRollup::from_raw(&[]);
    assert_eq!(checks_cell(&empty).symbol, "∅");
    assert_eq!(check_state_span(CheckState::Fail).symbol, "✗");
    assert_eq!(check_state_span(CheckState::Pending).tone, Tone::Yellow);

    assert_eq!(involvement_cell(Involvement::ReviewRequested).symbol, "!");
    assert_eq!(involvement_cell(Involvement::AwaitingAuthor).symbol, "…");
    assert_eq!(involvement_cell(Involvement::Approved).symbol, "✓");
    assert_eq!(involvement_cell(Involvement::Commented).symbol, "·");
    assert_eq!(involvement_cell(Involvement::NotInvolved).symbol, " ");

    assert_eq!(reviewer_cell(ReviewerState::Pending).symbol, "●");
    assert_eq!(mergeable_cell(Mergeable::Conflicting).symbol, "conflicting");
    assert_eq!(draft_mark(true).symbol, " draft");
    assert_eq!(draft_mark(false).symbol, "");
}

#[test]
fn header_and_footer() {
    assert_eq!(
        header_line("owner/repo", 12, Some(14), false),
        "prq · owner/repo · 12 open PR(s) · refreshed 14s ago"
    );
    assert_eq!(header_line("o/r", 0, None, true), "prq · o/r · 0 open PR(s) · loading…");
    assert_eq!(header_line("o/r", 0, None, false), "prq · o/r · 0 open PR(s) · —");

    let mut app = App::new("o/r".to_string(), 60, true, 100);
    assert_eq!(app.header_text(), "prq · o/r · 0 open PR(s) · loading…");
    app.apply_prs(vec![PrSummary::from(&raw_pr(1))]);
    assert!(app.header_text().starts_with("prq · o/r · 1 open PR(s) · refreshed "));
    match app.footer() {
        Footer::Hint(h) => assert!(h.starts_with("j/k move")),
        Footer::Error(_) => panic!("no error expected"),
    }
    app.mode = ViewMode::Detail(1);
    match app.footer() {
        Footer::Hint(h) => assert_eq!(h, "Esc back · o open · r refresh · ? help · q quit"),
        Footer::Error(_) => panic!("no error expected"),
    }
    app.apply_list_error("bad".to_string());
    match app.footer() {
        Footer::Error(e) => assert_eq!(e, "error: bad"),
        Footer::Hint(_) => panic!("error expected"),
    }
}

#[test]
fn list_texts() {
    assert_eq!(number_cell(101, false), "101");
    assert_eq!(number_cell(104, true), "104*");
    let mut app = App::new("o/r".to_string(), 60, true, 100);
    assert_eq!(app.list_placeholder(), Some("Loading PRs…"));
    app.apply_prs(Vec::new());
    assert_eq!(app.list_placeholder(), Some("No open PRs."));
    app.apply_prs(vec![PrSummary::from(&raw_pr(1))]);
    assert_eq!(app.list_placeholder(), None);
}

#[test]
fn detail_texts() {
    let mut app = App::new("o/r".to_string(), 60, true, 100);
    app.apply_prs(vec![PrSummary::from(&raw_pr(7))]);
    app.enter_detail();
    assert_eq!(app.detail_placeholder(7).as_deref(), Some("Loading PR #7…"));
    app.loading_detail = false;
    assert_eq!(app.detail_placeholder(7).as_deref(), Some("No detail available."));
    let d = PrDetail::from(&raw_pr(7));
    assert_eq!(d.title_prefix(), "#7 ");
    assert_eq!(d.refs_line(), "feat → main");
    assert_eq!(d.byline("3d"), "by alice · updated 3d · ");
    assert_eq!(d.diff_summary(), " · +120 −30 in 5 files");
    assert_eq!(d.checks_note(), Some("(no checks)"));
    assert_eq!(d.people_note(), Some("(no reviews)"));
    app.apply_detail(d);
    assert_eq!(app.detail_placeholder(7), None);
}

#[test]
fn descriptions() {
    assert_eq!(description_text("", 80), "(no description)");
    assert_eq!(description_text("  \n\t ", 80), "(no description)");
    assert_eq!(description_text("short body", 80), "short body");
    let long = "alpha beta gamma delta epsilon zeta eta theta";
    let wrapped = description_text(long, 10);
    assert!(wrapped.lines().all(|l| l.chars().count() <= 20));
    assert!(wrapped.contains('\n'));
    assert_eq!(wrapped.replace('\n', " "), long);
}

#[test]
fn gh_outputs() {
    assert_eq!(repo_from_output("owner/repo\n"), "owner/repo");
    assert_eq!(login_from_output("  octocat\n").as_deref(), Some("octocat"));
    assert_eq!(login_from_output(" \n"), None);
    assert_eq!(login_from_output(""), None);
}

#[test]
fn clock_readings() {
    assert_eq!(epoch_reading(Duration::new(1_700_000_000, 250)), Some((1_700_000_000, 250)));
    assert_eq!(epoch_reading(Duration::from_millis(1_500)), Some((1, 500_000_000)));
    assert_eq!(epoch_reading(Duration::new(u64::MAX, 0)), None);
    assert_eq!(epoch_reading(Duration::new(i64::MAX as u64, 7)), Some((i64::MAX, 7)));
    let now = unix_now().expect("clock after 1970");
    assert!(now.0 > 1_600_000_000);
}
