use prq::app::{Action, App, Key, KeyCode, Request, Response, ViewMode};
use prq::model::{PrDetail, PrSummary, RawAuthor, RawPr};

fn raw_pr(number: u32) -> RawPr {
    RawPr {
        number,
        title: format!("PR {number}"),
        author: RawAuthor { login: "alice".to_string() },
        head_ref: "feature".to_string(),
        base_ref: "main".to_string(),
        is_draft: false,
        mergeable: "MERGEABLE".to_string(),
        created_at: None,
        updated_at: None,
        url: format!("https://github.com/o/r/pull/{number}"),
        review_decision: String::new(),
        status_check_rollup: Vec::new(),
        review_requests: Vec::new(),
        latest_reviews: Vec::new(),
        body: None,
        additions: None,
        deletions: None,
        changed_files: None,
    }
}

fn prs(numbers: &[u32]) -> Vec<PrSummary> {
    numbers.iter().map(|n| PrSummary::from(&raw_pr(*n))).collect()
}

fn key(c: char) -> Key {
    Key { code: KeyCode::Char(c), ctrl: false }
}

fn app_with(numbers: &[u32]) -> App {
    let mut app = App::new("o/r".to_string(), 60, true, 100);
    app.apply_prs(prs(numbers));
    app
}

#[test]
fn new_app_is_loading_list() {
    let app = App::new("o/r".to_string(), 30, false, 20);
    assert_eq!(app.selected, Some(0));
    assert!(app.loading_list);
    assert_eq!(app.mode, ViewMode::List);
    assert!(app.selected_pr().is_none());
    assert_eq!(app.limit, 20);
    assert!(!app.needs_auto_refresh());
}

#[test]
fn selection_moves_and_clamps() {
    let mut app = app_with(&[1, 2, 3]);
    assert_eq!(app.selected, Some(0));
    app.select_prev();
    assert_eq!(app.selected, Some(0));
    app.select_next();
    app.select_next();
    assert_eq!(app.selected, Some(2));
    app.select_next();
    assert_eq!(app.selected, Some(2));
    app.select_first();
    assert_eq!(app.selected, Some(0));
    app.select_last();
    assert_eq!(app.selected_pr().map(|p| p.number), Some(3));
}

#[test]
fn next_then_prev_returns() {
    let mut app = app_with(&[1, 2, 3]);
    app.select_next();
    let before = app.selected;
    app.select_next();
    app.select_prev();
    assert_eq!(app.selected, before);
}

#[test]
fn selection_on_empty_list_stays() {
    let mut app = App::new("o/r".to_string(), 60, true, 100);
    app.select_next();
    app.select_last();
    assert_eq!(app.selected, Some(0));
    app.apply_prs(Vec::new());
    assert_eq!(app.selected, None);
    app.select_first();
    assert_eq!(app.selected, None);
}

#[test]
fn refresh_keeps_selected_pr_by_number() {
    let mut app = app_with(&[10, 20, 30]);
    app.select_next();
    assert_eq!(app.selected_pr().map(|p| p.number), Some(20));
    app.apply_prs(prs(&[5, 30, 20, 20]));
    assert_eq!(app.selected, Some(2));
    assert_eq!(app.selected_pr().map(|p| p.number), Some(20));
    app.apply_prs(prs(&[7, 8]));
    assert_eq!(app.selected, Some(0));
    assert!(!app.loading_list);
    assert!(app.last_refresh.is_some());
    assert!(app.last_error.is_none());
}

#[test]
fn list_error_is_recorded_and_cleared_by_next_list() {
    let mut app = app_with(&[1]);
    app.loading_list = true;
    app.apply_list_error("boom".to_string());
    assert_eq!(app.prs.len(), 1);
    assert_eq!(app.selected, Some(0));
    assert!(!app.loading_list);
    assert_eq!(app.last_error.as_deref(), Some("boom"));
    app.apply_prs(prs(&[1]));
    assert!(app.last_error.is_none());
}

#[test]
fn enter_and_leave_detail() {
    let mut app = app_with(&[4, 5]);
    app.select_next();
    app.enter_detail();
    assert_eq!(app.mode, ViewMode::Detail(5));
    assert!(app.loading_detail);
    assert!(app.detail.is_none());
    app.apply_detail(PrDetail::from(&raw_pr(5)));
    assert!(!app.loading_detail);
    assert!(app.detail.is_some());
    app.back_to_list();
    assert_eq!(app.mode, ViewMode::List);
    assert!(app.detail.is_none());
    assert_eq!(app.selected, Some(1));
}

#[test]
fn enter_detail_without_selection_does_nothing() {
    let mut app = App::new("o/r".to_string(), 60, true, 100);
    app.enter_detail();
    assert_eq!(app.mode, ViewMode::List);
    assert!(!app.loading_detail);
}

#[test]
fn detail_error_is_recorded() {
    let mut app = app_with(&[4]);
    app.enter_detail();
    app.apply_detail_error("nope".to_string());
    assert!(!app.loading_detail);
    assert_eq!(app.last_error.as_deref(), Some("nope"));
}

#[test]
fn keys_move_and_open_detail() {
    let mut app = app_with(&[1, 2, 3]);
    assert_eq!(app.handle_key(key('j')), Action::Idle);
    assert_eq!(app.handle_key(Key { code: KeyCode::Down, ctrl: false }), Action::Idle);
    assert_eq!(app.selected, Some(2));
    app.handle_key(key('k'));
    assert_eq!(app.selected, Some(1));
    app.handle_key(key('G'));
    assert_eq!(app.selected, Some(2));
    app.handle_key(Key { code: KeyCode::Home, ctrl: false });
    assert_eq!(app.selected, Some(0));
    let act = app.handle_key(Key { code: KeyCode::Enter, ctrl: false });
    assert_eq!(act, Action::Send(Request::FetchDetail { number: 1 }));
    assert_eq!(app.mode, ViewMode::Detail(1));
    app.handle_key(key('j'));
    assert_eq!(app.selected, Some(0));
    app.handle_key(Key { code: KeyCode::Esc, ctrl: false });
    assert_eq!(app.mode, ViewMode::List);
    let numbers: Vec<u32> = app.prs.iter().map(|p| p.number).collect();
    assert_eq!(numbers, vec![1, 2, 3]);
}

#[test]
fn quit_keys() {
    let mut app = app_with(&[1]);
    app.handle_key(Key { code: KeyCode::Enter, ctrl: false });
    app.handle_key(key('q'));
    assert_eq!(app.mode, ViewMode::List);
    assert!(!app.should_quit);
    app.handle_key(key('q'));
    assert!(app.should_quit);

    let mut app = app_with(&[1]);
    app.handle_key(Key { code: KeyCode::Char('c'), ctrl: true });
    assert!(app.should_quit);
    let mut app = app_with(&[1]);
    app.handle_key(key('c'));
    assert!(!app.should_quit);
}

#[test]
fn help_captures_keys() {
    let mut app = app_with(&[1, 2]);
    app.handle_key(key('?'));
    assert!(app.show_help);
    assert_eq!(app.handle_key(key('j')), Action::Idle);
    assert_eq!(app.selected, Some(0));
    assert_eq!(app.handle_key(key('r')), Action::Idle);
    assert!(!app.loading_list);
    app.handle_key(key('q'));
    assert!(!app.show_help);
    assert!(!app.should_quit);
}

#[test]
fn ctrl_c_quits_from_anywhere() {
    let ctrl_c = Key { code: KeyCode::Char('c'), ctrl: true };
    let mut app = app_with(&[1]);
    app.handle_key(key('?'));
    assert!(app.show_help);
    assert_eq!(app.handle_key(ctrl_c), Action::Idle);
    assert!(app.should_quit);

    let mut app = app_with(&[1]);
    app.handle_key(Key { code: KeyCode::Enter, ctrl: false });
    app.handle_key(ctrl_c);
    assert!(app.should_quit);
    assert_eq!(app.mode, ViewMode::Detail(1));
}

#[test]
fn refresh_time_is_the_given_instant() {
    let mut app = app_with(&[1, 2]);
    app.select_next();
    let now = std::time::Instant::now();
    app.apply_prs_at(prs(&[2, 3]), now);
    assert_eq!(app.last_refresh, Some(now));
    assert_eq!(app.selected, Some(0));
    assert!(!app.loading_list);
}

#[test]
fn refresh_key_requests_once() {
    let mut app = app_with(&[1]);
    assert_eq!(app.handle_key(key('r')), Action::Send(Request::FetchList { limit: 100 }));
    assert!(app.loading_list);
    assert_eq!(app.handle_key(key('r')), Action::Idle);
    app.apply_prs(prs(&[1]));
    app.handle_key(Key { code: KeyCode::Enter, ctrl: false });
    assert_eq!(app.handle_key(key('r')), Action::Idle);
    app.apply_detail(PrDetail::from(&raw_pr(1)));
    assert_eq!(app.handle_key(key('r')), Action::Send(Request::FetchDetail { number: 1 }));
}

#[test]
fn open_key_gives_url() {
    let mut app = app_with(&[1, 2]);
    app.handle_key(key('j'));
    assert_eq!(
        app.handle_key(key('o')),
        Action::OpenUrl("https://github.com/o/r/pull/2".to_string())
    );
    app.handle_key(Key { code: KeyCode::Enter, ctrl: false });
    assert_eq!(app.handle_key(key('o')), Action::Idle);
    app.apply_detail(PrDetail::from(&raw_pr(2)));
    assert_eq!(
        app.handle_key(key('o')),
        Action::OpenUrl("https://github.com/o/r/pull/2".to_string())
    );
    app.open_failed("https://x", "no browser");
    assert_eq!(app.last_error.as_deref(), Some("failed to open https://x: no browser"));
}

#[test]
fn responses_are_applied() {
    let mut app = App::new("o/r".to_string(), 60, true, 100);
    app.apply_response(Response::List(Ok(prs(&[3, 4]))));
    assert_eq!(app.prs.len(), 2);
    app.apply_response(Response::List(Err("list failed".to_string())));
    assert_eq!(app.last_error.as_deref(), Some("list failed"));
    app.handle_key(Key { code: KeyCode::Enter, ctrl: false });
    app.apply_response(Response::Detail { number: 4, result: Ok(PrDetail::from(&raw_pr(4))) });
    assert!(app.detail.is_none());
    assert!(app.loading_detail);
    app.apply_response(Response::Detail { number: 3, result: Ok(PrDetail::from(&raw_pr(3))) });
    assert!(app.detail.is_some());
    app.apply_response(Response::Detail { number: 9, result: Err("gone".to_string()) });
    assert_eq!(app.last_error.as_deref(), Some("gone"));
}

#[test]
fn auto_refresh_timing() {
    let mut app = App::new("o/r".to_string(), 0, true, 100);
    assert_eq!(app.poll_auto_refresh(), Action::Idle);
    app.apply_prs(prs(&[1]));
    assert!(app.needs_auto_refresh());
    assert_eq!(app.poll_auto_refresh(), Action::Send(Request::FetchList { limit: 100 }));
    assert!(app.loading_list);
    assert!(!app.needs_auto_refresh());

    let mut off = App::new("o/r".to_string(), 0, false, 100);
    off.apply_prs(prs(&[1]));
    assert!(!off.needs_auto_refresh());

    let mut slow = App::new("o/r".to_string(), 3600, true, 100);
    slow.apply_prs(prs(&[1]));
    assert!(!slow.needs_auto_refresh());
    assert!(slow.refresh_due(3600));
    assert!(!slow.refresh_due(3599));
}

#[test]
fn auto_refresh_at_elapsed_seconds() {
    let mut app = App::new("o/r".to_string(), 60, true, 100);
    assert_eq!(app.poll_auto_refresh_at(1000), Action::Idle);
    app.apply_prs(prs(&[1]));
    assert_eq!(app.poll_auto_refresh_at(59), Action::Idle);
    assert!(!app.loading_list);
    assert_eq!(app.poll_auto_refresh_at(60), Action::Send(Request::FetchList { limit: 100 }));
    assert!(app.loading_list);
    assert_eq!(app.poll_auto_refresh_at(600), Action::Idle);
    app.auto_refresh = false;
    app.loading_list = false;
    assert_eq!(app.poll_auto_refresh_at(600), Action::Idle);
}
