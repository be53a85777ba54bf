//! The application state: the list of pull requests, the selection, the view
//! mode, loading flags and errors, and every transition that keys, worker
//! responses and the refresh timer cause.

use vstd::prelude::*;

use core::time::Duration;
use std::time::Instant;

use crate::clock::duration_secs;

use crate::model::{PrDetail, PrSummary};

verus! {

/// Which view the body of the screen shows.
#[derive(Debug, Clone, Copy, PartialEq, Eq, Structural)]
pub enum ViewMode {
    List,
    Detail(u32),
}

/// A request to the background worker.
#[derive(Debug, Clone, Copy, PartialEq, Eq, Structural)]
pub enum Request {
    FetchList { limit: u32 },
    FetchDetail { number: u32 },
    Shutdown,
}

/// A reply of the background worker.
pub enum Response {
    List(Result<Vec<PrSummary>, String>),
    Detail { number: u32, result: Result<PrDetail, String> },
}

/// The whole state of the application.
pub struct App {
    pub repo: String,
    pub prs: Vec<PrSummary>,
    /// The selected row of the list, if any.
    pub selected: Option<usize>,
    pub mode: ViewMode,
    pub loading_list: bool,
    pub loading_detail: bool,
    pub detail: Option<PrDetail>,
    pub last_refresh: Option<Instant>,
    pub last_error: Option<String>,
    pub show_help: bool,
    pub should_quit: bool,
    pub refresh_interval_secs: u64,
    pub auto_refresh: bool,
    pub limit: u32,
}

/// The number of the pull request at `selected` in `prs`, if that row exists.
pub open spec fn number_at(prs: Seq<PrSummary>, selected: Option<usize>) -> Option<u32> {
    match selected {
        Some(i) => if i < prs.len() {
            Some(prs[i as int].number)
        } else {
            None
        },
        None => None,
    }
}

/// Whether `sel` is where a refresh with `prs` puts the selection when the
/// pull request numbered `keep` was selected before: nowhere for an empty
/// list; otherwise the first row with that number, or the first row when
/// nothing was selected or the number is gone.
pub open spec fn reselected(prs: Seq<PrSummary>, keep: Option<u32>, sel: Option<usize>) -> bool {
    if prs.len() == 0 {
        sel is None
    } else {
        match sel {
            None => false,
            Some(j) => match keep {
                Some(n) => if exists|i: int| 0 <= i < prs.len() && #[trigger] prs[i].number == n {
                    &&& j < prs.len()
                    &&& prs[j as int].number == n
                    &&& forall|k: int| 0 <= k < j ==> #[trigger] prs[k].number != n
                } else {
                    j == 0
                },
                None => j == 0,
            },
        }
    }
}

impl App {
    /// The selection is a row of the list, or the first row of an empty list,
    /// and a non-empty list always has a selection.
    pub open spec fn wf(&self) -> bool {
        &&& match self.selected {
            Some(i) => i < self.prs.len() || (i == 0 && self.prs.len() == 0),
            None => true,
        }
        &&& self.prs.len() > 0 ==> self.selected is Some
    }

    /// The number of the selected pull request, if a row is selected.
    pub open spec fn selected_number(&self) -> Option<u32> {
        number_at(self.prs@, self.selected)
    }

    /// The selection after moving down one row.
    pub open spec fn next_selection(&self) -> Option<usize> {
        if self.prs.len() == 0 {
            self.selected
        } else {
            match self.selected {
                Some(i) => if i + 1 < self.prs.len() {
                    Some((i + 1) as usize)
                } else {
                    Some(i)
                },
                None => Some(0),
            }
        }
    }

    /// The selection after moving up one row.
    pub open spec fn prev_selection(&self) -> Option<usize> {
        if self.prs.len() == 0 {
            self.selected
        } else {
            match self.selected {
                Some(i) => if i > 0 {
                    Some((i - 1) as usize)
                } else {
                    Some(0)
                },
                None => Some(0),
            }
        }
    }

    /// The selection after jumping to the top.
    pub open spec fn first_selection(&self) -> Option<usize> {
        if self.prs.len() == 0 {
            self.selected
        } else {
            Some(0)
        }
    }

    /// The selection after jumping to the bottom.
    pub open spec fn last_selection(&self) -> Option<usize> {
        if self.prs.len() == 0 {
            self.selected
        } else {
            Some((self.prs.len() - 1) as usize)
        }
    }

    /// The state after opening the detail view of the selected pull request.
    pub open spec fn entered_detail(self) -> App {
        match self.selected_number() {
            Some(n) => App {
                mode: ViewMode::Detail(n),
                detail: None,
                loading_detail: true,
                ..self
            },
            None => self,
        }
    }

    /// The state after going back to the list.
    pub open spec fn left_detail(self) -> App {
        App { mode: ViewMode::List, detail: None, loading_detail: false, ..self }
    }

    /// A new application for `repo`: an empty list that is loading, the first
    /// row selected, the list view, no detail, no refresh yet and no error.
    pub fn new(repo: String, refresh_interval_secs: u64, auto_refresh: bool, limit: u32) -> (app: App)
        ensures
            app.repo == repo,
            app.prs@.len() == 0,
            app.selected == Some(0usize),
            app.mode == ViewMode::List,
            app.loading_list,
            !app.loading_detail,
            app.detail is None,
            app.last_refresh is None,
            app.last_error is None,
            !app.show_help,
            !app.should_quit,
            app.refresh_interval_secs == refresh_interval_secs,
            app.auto_refresh == auto_refresh,
            app.limit == limit,
            app.wf(),
    {
        App {
            repo,
            prs: Vec::new(),
            selected: Some(0),
            mode: ViewMode::List,
            loading_list: true,
            loading_detail: false,
            detail: None,
            last_refresh: None,
            last_error: None,
            show_help: false,
            should_quit: false,
            refresh_interval_secs,
            auto_refresh,
            limit,
        }
    }

    /// The selected pull request, if the selection is a row of the list.
    pub fn selected_pr(&self) -> (r: Option<&PrSummary>)
        ensures
            match self.selected {
                Some(i) => if i < self.prs.len() {
                    r == Some(&self.prs@[i as int])
                } else {
                    r is None
                },
                None => r is None,
            },
    {
        match self.selected {
            Some(i) => if i < self.prs.len() {
                Some(&self.prs[i])
            } else {
                None
            },
            None => None,
        }
    }

    /// Moves the selection down one row, staying on the last row.
    pub fn select_next(&mut self)
        requires
            old(self).prs.len() > 0 ==> old(self).selected != Some(usize::MAX),
        ensures
            *final(self) == (App { selected: old(self).next_selection(), ..*old(self) }),
            old(self).wf() ==> final(self).wf(),
    {
        if self.prs.len() == 0 {
            return ;
        }
        let new = match self.selected {
            Some(i) => if i + 1 < self.prs.len() {
                i + 1
            } else {
                i
            },
            None => 0,
        };
        self.selected = Some(new);
    }

    /// Moves the selection up one row, staying on the first row.
    pub fn select_prev(&mut self)
        ensures
            *final(self) == (App { selected: old(self).prev_selection(), ..*old(self) }),
            old(self).wf() ==> final(self).wf(),
    {
        if self.prs.len() == 0 {
            return ;
        }
        let new = match self.selected {
            Some(i) => if i > 0 {
                i - 1
            } else {
                0
            },
            None => 0,
        };
        self.selected = Some(new);
    }

    /// Selects the first row, if there is one.
    pub fn select_first(&mut self)
        ensures
            *final(self) == (App { selected: old(self).first_selection(), ..*old(self) }),
            old(self).wf() ==> final(self).wf(),
    {
        if self.prs.len() != 0 {
            self.selected = Some(0);
        }
    }

    /// Selects the last row, if there is one.
    pub fn select_last(&mut self)
        ensures
            *final(self) == (App { selected: old(self).last_selection(), ..*old(self) }),
            old(self).wf() ==> final(self).wf(),
    {
        if self.prs.len() != 0 {
            self.selected = Some(self.prs.len() - 1);
        }
    }

    /// Takes a list fetched at `now`: the selection follows the previously
    /// selected pull request by its number (see `reselected`), loading ends,
    /// the error is cleared and the refresh time is `now`.
    pub fn apply_prs_at(&mut self, prs: Vec<PrSummary>, now: Instant)
        ensures
            *final(self) == (App {
                prs,
                selected: final(self).selected,
                loading_list: false,
                last_refresh: Some(now),
                last_error: None,
                ..*old(self)
            }),
            reselected(prs@, old(self).selected_number(), final(self).selected),
            final(self).wf(),
    {
        let keep_number = match self.selected_pr() {
            Some(p) => Some(p.number),
            None => None,
        };
        self.prs = prs;
        if self.prs.len() == 0 {
            self.selected = None;
        } else {
            match keep_number {
                Some(n) => {
                    let mut idx: usize = 0;
                    let mut found = false;
                    while idx < self.prs.len()
                        invariant_except_break
                            idx <= self.prs.len(),
                            !found,
                            forall|k: int| 0 <= k < idx ==> #[trigger] self.prs@[k].number != n,
                        ensures
                            idx <= self.prs.len(),
                            forall|k: int| 0 <= k < idx ==> #[trigger] self.prs@[k].number != n,
                            found ==> idx < self.prs.len() && self.prs@[idx as int].number == n,
                            !found ==> idx == self.prs.len(),
                        decreases self.prs.len() - idx,
                    {
                        if self.prs[idx].number == n {
                            found = true;
                            break;
                        }
                        idx = idx + 1;
                    }
                    if found {
                        self.selected = Some(idx);
                    } else {
                        self.selected = Some(0);
                    }
                },
                None => {
                    self.selected = Some(0);
                },
            }
        }
        self.loading_list = false;
        self.last_refresh = Some(now);
        self.last_error = None;
    }

    /// Takes a fresh list: as `apply_prs_at` with the moment that the
    /// monotonic clock shows now.
    pub fn apply_prs(&mut self, prs: Vec<PrSummary>)
        ensures
            final(self).last_refresh is Some,
            *final(self) == (App {
                prs,
                selected: final(self).selected,
                loading_list: false,
                last_refresh: final(self).last_refresh,
                last_error: None,
                ..*old(self)
            }),
            reselected(prs@, old(self).selected_number(), final(self).selected),
            final(self).wf(),
    {
        let now = Instant::now();
        self.apply_prs_at(prs, now);
    }

    /// Records a failed list fetch: loading ends and the error is shown.
    pub fn apply_list_error(&mut self, err: String)
        ensures
            *final(self) == (App { loading_list: false, last_error: Some(err), ..*old(self) }),
            old(self).wf() ==> final(self).wf(),
    {
        self.loading_list = false;
        self.last_error = Some(err);
    }

    /// Takes a fetched detail: loading ends and the detail is shown.
    pub fn apply_detail(&mut self, detail: PrDetail)
        ensures
            *final(self) == (App { loading_detail: false, detail: Some(detail), ..*old(self) }),
            old(self).wf() ==> final(self).wf(),
    {
        self.loading_detail = false;
        self.detail = Some(detail);
    }

    /// Records a failed detail fetch: loading ends and the error is shown.
    pub fn apply_detail_error(&mut self, err: String)
        ensures
            *final(self) == (App { loading_detail: false, last_error: Some(err), ..*old(self) }),
            old(self).wf() ==> final(self).wf(),
    {
        self.loading_detail = false;
        self.last_error = Some(err);
    }

    /// Opens the detail view of the selected pull request, if a row is
    /// selected; its detail is then loading.
    pub fn enter_detail(&mut self)
        ensures
            *final(self) == old(self).entered_detail(),
            old(self).wf() ==> final(self).wf(),
    {
        let number = match self.selected_pr() {
            Some(pr) => Some(pr.number),
            None => None,
        };
        if let Some(n) = number {
            self.mode = ViewMode::Detail(n);
            self.detail = None;
            self.loading_detail = true;
        }
    }

    /// Returns to the list view, dropping the detail.
    pub fn back_to_list(&mut self)
        ensures
            *final(self) == old(self).left_detail(),
            old(self).wf() ==> final(self).wf(),
    {
        self.mode = ViewMode::List;
        self.detail = None;
        self.loading_detail = false;
    }

    /// Whether an automatic refresh is due after `elapsed_secs` seconds since
    /// the last refresh: auto-refresh is on, no list is loading, the list was
    /// refreshed before, and the interval has passed.
    pub fn refresh_due(&self, elapsed_secs: u64) -> (r: bool)
        ensures
            r == (self.auto_refresh && !self.loading_list && self.last_refresh is Some
                && elapsed_secs >= self.refresh_interval_secs),
    {
        self.auto_refresh && !self.loading_list && self.last_refresh.is_some()
            && elapsed_secs >= self.refresh_interval_secs
    }

    /// Whether an automatic refresh is due now. It never is while auto-refresh
    /// is off, while a list is loading, or before the first refresh; otherwise
    /// it is when the monotonic clock shows the interval has passed.
    pub fn needs_auto_refresh(&self) -> (r: bool)
        ensures
            r ==> self.auto_refresh && !self.loading_list && self.last_refresh is Some,
            self.auto_refresh && !self.loading_list && self.last_refresh is Some && self.refresh_interval_secs == 0 ==> r,
            self.auto_refresh && !self.loading_list && self.last_refresh is Some ==> exists|d: Duration|
                r == (#[trigger] duration_secs(d) >= self.refresh_interval_secs),
    {
        if !self.auto_refresh || self.loading_list {
            return false;
        }
        match &self.last_refresh {
            None => false,
            Some(t) => {
                let elapsed = t.elapsed();
                let r = self.refresh_due(elapsed.as_secs());
                assert(r == (duration_secs(elapsed) >= self.refresh_interval_secs));
                r
            },
        }
    }
}

/// A key as the application distinguishes keys.
#[derive(Debug, Clone, Copy, PartialEq, Eq, Structural)]
pub enum KeyCode {
    Char(char),
    Esc,
    Enter,
    Up,
    Down,
    Home,
    End,
    Other,
}

/// A key press: the key, and whether Control alone was held with it.
#[derive(Debug, Clone, Copy, PartialEq, Eq, Structural)]
pub struct Key {
    pub code: KeyCode,
    pub ctrl: bool,
}

/// What the surrounding program is to do after a key.
#[derive(Debug, Clone, PartialEq, Eq)]
pub enum Action {
    /// Nothing.
    Idle,
    /// Send this request to the worker.
    Send(Request),
    /// Open this address in the browser.
    OpenUrl(String),
}

/// The address that `o` opens: the selected pull request's in the list, the
/// shown detail's in the detail view.
pub open spec fn url_to_open(app: App) -> Option<String> {
    match app.mode {
        ViewMode::List => match app.selected {
            Some(i) => if i < app.prs.len() {
                Some(app.prs@[i as int].url)
            } else {
                None
            },
            None => None,
        },
        ViewMode::Detail(_) => match app.detail {
            Some(d) => Some(d.summary.url),
            None => None,
        },
    }
}

/// What the refresh timer does after `elapsed` seconds since the last
/// refresh: it starts a list fetch exactly when auto-refresh is on, no list is
/// loading, the list was refreshed before, and the interval has passed.
pub open spec fn auto_refresh_step(app: App, elapsed: u64) -> (App, Action) {
    if app.auto_refresh && !app.loading_list && app.last_refresh is Some && elapsed
        >= app.refresh_interval_secs {
        (App { loading_list: true, ..app }, Action::Send(Request::FetchList { limit: app.limit }))
    } else {
        (app, Action::Idle)
    }
}

/// Whether `key` moves the list selection down one row of a non-empty list.
pub open spec fn moves_down(app: App, key: Key) -> bool {
    &&& !(key.ctrl && key.code == KeyCode::Char('c'))
    &&& !app.show_help
    &&& app.mode == ViewMode::List
    &&& key.code == KeyCode::Char('j') || key.code == KeyCode::Down
    &&& app.prs.len() > 0
}

/// What a key does in the list view beyond the global keys.
pub open spec fn list_key_step(app: App, code: KeyCode) -> (App, Action) {
    if code == KeyCode::Char('j') || code == KeyCode::Down {
        (App { selected: app.next_selection(), ..app }, Action::Idle)
    } else if code == KeyCode::Char('k') || code == KeyCode::Up {
        (App { selected: app.prev_selection(), ..app }, Action::Idle)
    } else if code == KeyCode::Char('g') || code == KeyCode::Home {
        (App { selected: app.first_selection(), ..app }, Action::Idle)
    } else if code == KeyCode::Char('G') || code == KeyCode::End {
        (App { selected: app.last_selection(), ..app }, Action::Idle)
    } else if code == KeyCode::Enter {
        match app.selected_number() {
            Some(n) => (app.entered_detail(), Action::Send(Request::FetchDetail { number: n })),
            None => (app, Action::Idle),
        }
    } else {
        (app, Action::Idle)
    }
}

/// What a key does: Control-C quits from anywhere; with help shown, `?`,
/// `Esc` and `q` close it and nothing else acts; otherwise `q` leaves the detail view or quits,
/// `?` shows help, `r` refreshes the current view unless it is loading, `o`
/// opens the current pull request, `Esc` leaves the detail view, and in the
/// list view the movement keys and `Enter` act.
pub open spec fn key_step(app: App, key: Key) -> (App, Action) {
    let code = key.code;
    if key.ctrl && code == KeyCode::Char('c') {
        (App { should_quit: true, ..app }, Action::Idle)
    } else if app.show_help {
        if code == KeyCode::Char('?') || code == KeyCode::Esc || code == KeyCode::Char('q') {
            (App { show_help: false, ..app }, Action::Idle)
        } else {
            (app, Action::Idle)
        }
    } else if code == KeyCode::Char('q') {
        match app.mode {
            ViewMode::Detail(_) => (app.left_detail(), Action::Idle),
            ViewMode::List => (App { should_quit: true, ..app }, Action::Idle),
        }
    } else if code == KeyCode::Char('?') {
        (App { show_help: true, ..app }, Action::Idle)
    } else if code == KeyCode::Char('r') {
        match app.mode {
            ViewMode::List => if !app.loading_list {
                (
                    App { loading_list: true, ..app },
                    Action::Send(Request::FetchList { limit: app.limit }),
                )
            } else {
                (app, Action::Idle)
            },
            ViewMode::Detail(n) => if !app.loading_detail {
                (
                    App { loading_detail: true, ..app },
                    Action::Send(Request::FetchDetail { number: n }),
                )
            } else {
                (app, Action::Idle)
            },
        }
    } else if code == KeyCode::Char('o') {
        match url_to_open(app) {
            Some(u) => (app, Action::OpenUrl(u)),
            None => (app, Action::Idle),
        }
    } else if code == KeyCode::Esc {
        match app.mode {
            ViewMode::Detail(_) => (app.left_detail(), Action::Idle),
            ViewMode::List => (app, Action::Idle),
        }
    } else {
        match app.mode {
            ViewMode::List => list_key_step(app, code),
            ViewMode::Detail(_) => (app, Action::Idle),
        }
    }
}

/// The state after a worker reply, given the refresh time that a fresh list
/// records: a list replaces the list (see `apply_prs`) or records its error;
/// a detail is taken only while the detail view shows that pull request; a
/// detail error is recorded whatever is shown.
pub open spec fn response_applied(app: App, resp: Response, refreshed: App) -> bool {
    match resp {
        Response::List(Ok(prs)) => {
            &&& refreshed.last_refresh is Some
            &&& refreshed == App {
                prs,
                selected: refreshed.selected,
                loading_list: false,
                last_refresh: refreshed.last_refresh,
                last_error: None,
                ..app
            }
            &&& reselected(prs@, app.selected_number(), refreshed.selected)
        },
        Response::List(Err(e)) => refreshed == App { loading_list: false, last_error: Some(e), ..app },
        Response::Detail { number, result: Ok(d) } => if app.mode == ViewMode::Detail(number) {
            refreshed == App { loading_detail: false, detail: Some(d), ..app }
        } else {
            refreshed == app
        },
        Response::Detail { number, result: Err(e) } => refreshed == App {
            loading_detail: false,
            last_error: Some(e),
            ..app
        },
    }
}

impl App {
    /// Handles one key press, and says what the surrounding program is to do.
    pub fn handle_key(&mut self, key: Key) -> (action: Action)
        requires
            moves_down(*old(self), key) ==> old(self).selected != Some(usize::MAX),
        ensures
            (*final(self), action) == key_step(*old(self), key),
            old(self).wf() ==> final(self).wf(),
    {
        let code = key.code;
        if key.ctrl && code == KeyCode::Char('c') {
            self.should_quit = true;
            return Action::Idle;
        }
        if self.show_help {
            if code == KeyCode::Char('?') || code == KeyCode::Esc || code == KeyCode::Char('q') {
                self.show_help = false;
            }
            return Action::Idle;
        }
        if code == KeyCode::Char('q') {
            match self.mode {
                ViewMode::Detail(_) => self.back_to_list(),
                ViewMode::List => self.should_quit = true,
            }
            Action::Idle
        } else if code == KeyCode::Char('?') {
            self.show_help = true;
            Action::Idle
        } else if code == KeyCode::Char('r') {
            match self.mode {
                ViewMode::List => if !self.loading_list {
                    self.loading_list = true;
                    Action::Send(Request::FetchList { limit: self.limit })
                } else {
                    Action::Idle
                },
                ViewMode::Detail(n) => if !self.loading_detail {
                    self.loading_detail = true;
                    Action::Send(Request::FetchDetail { number: n })
                } else {
                    Action::Idle
                },
            }
        } else if code == KeyCode::Char('o') {
            match self.open_target() {
                Some(u) => Action::OpenUrl(u),
                None => Action::Idle,
            }
        } else if code == KeyCode::Esc {
            if let ViewMode::Detail(_) = self.mode {
                self.back_to_list();
            }
            Action::Idle
        } else {
            match self.mode {
                ViewMode::List => self.handle_list_key(code),
                ViewMode::Detail(_) => Action::Idle,
            }
        }
    }

    fn open_target(&self) -> (u: Option<String>)
        ensures
            u == url_to_open(*self),
    {
        match self.mode {
            ViewMode::List => match self.selected_pr() {
                Some(p) => Some(p.url.clone()),
                None => None,
            },
            ViewMode::Detail(_) => match &self.detail {
                Some(d) => Some(d.summary.url.clone()),
                None => None,
            },
        }
    }

    fn handle_list_key(&mut self, code: KeyCode) -> (action: Action)
        requires
            (code == KeyCode::Char('j') || code == KeyCode::Down) && old(self).prs.len() > 0
                ==> old(self).selected != Some(usize::MAX),
        ensures
            (*final(self), action) == list_key_step(*old(self), code),
            old(self).wf() ==> final(self).wf(),
    {
        if code == KeyCode::Char('j') || code == KeyCode::Down {
            self.select_next();
            Action::Idle
        } else if code == KeyCode::Char('k') || code == KeyCode::Up {
            self.select_prev();
            Action::Idle
        } else if code == KeyCode::Char('g') || code == KeyCode::Home {
            self.select_first();
            Action::Idle
        } else if code == KeyCode::Char('G') || code == KeyCode::End {
            self.select_last();
            Action::Idle
        } else if code == KeyCode::Enter {
            let number = match self.selected_pr() {
                Some(pr) => Some(pr.number),
                None => None,
            };
            match number {
                Some(n) => {
                    self.enter_detail();
                    Action::Send(Request::FetchDetail { number: n })
                },
                None => Action::Idle,
            }
        } else {
            Action::Idle
        }
    }

    /// Takes one reply of the worker.
    pub fn apply_response(&mut self, resp: Response)
        ensures
            response_applied(*old(self), resp, *final(self)),
            old(self).wf() ==> final(self).wf(),
    {
        match resp {
            Response::List(Ok(prs)) => self.apply_prs(prs),
            Response::List(Err(e)) => self.apply_list_error(e),
            Response::Detail { number, result } => match result {
                Ok(d) => {
                    if self.mode == ViewMode::Detail(number) {
                        self.apply_detail(d);
                    }
                },
                Err(e) => self.apply_detail_error(e),
            },
        }
    }

    /// Starts an automatic refresh when one is due after `elapsed_secs`
    /// seconds since the last refresh (see `refresh_due`): the list is then
    /// loading and the worker is to fetch it.
    pub fn poll_auto_refresh_at(&mut self, elapsed_secs: u64) -> (action: Action)
        ensures
            if old(self).auto_refresh && !old(self).loading_list && old(self).last_refresh is Some
                && elapsed_secs >= old(self).refresh_interval_secs {
                &&& action == Action::Send(Request::FetchList { limit: old(self).limit })
                &&& *final(self) == (App { loading_list: true, ..*old(self) })
            } else {
                &&& action == Action::Idle
                &&& *final(self) == *old(self)
            },
            (*final(self), action) == auto_refresh_step(*old(self), elapsed_secs),
            old(self).wf() ==> final(self).wf(),
    {
        if self.refresh_due(elapsed_secs) {
            self.loading_list = true;
            Action::Send(Request::FetchList { limit: self.limit })
        } else {
            Action::Idle
        }
    }

    /// Starts an automatic refresh when one is due now: as
    /// `poll_auto_refresh_at` with the seconds that the monotonic clock shows
    /// since the last refresh; never while auto-refresh is off, while a list
    /// is loading, or before the first refresh.
    pub fn poll_auto_refresh(&mut self) -> (action: Action)
        ensures
            action == Action::Idle ==> *final(self) == *old(self),
            action != Action::Idle ==> {
                &&& old(self).auto_refresh && !old(self).loading_list && old(self).last_refresh is Some
                &&& action == Action::Send(Request::FetchList { limit: old(self).limit })
                &&& *final(self) == (App { loading_list: true, ..*old(self) })
            },
            old(self).auto_refresh && !old(self).loading_list && old(self).last_refresh is Some
                && old(self).refresh_interval_secs == 0 ==> action != Action::Idle,
            !(old(self).auto_refresh && !old(self).loading_list && old(self).last_refresh is Some)
                ==> action == Action::Idle,
            old(self).auto_refresh && !old(self).loading_list && old(self).last_refresh is Some
                ==> exists|d: Duration|
                (*final(self), action) == auto_refresh_step(*old(self), #[trigger] duration_secs(d)),
            old(self).wf() ==> final(self).wf(),
    {
        if !self.auto_refresh || self.loading_list {
            return Action::Idle;
        }
        match &self.last_refresh {
            Some(t) => {
                let d = t.elapsed();
                let action = self.poll_auto_refresh_at(d.as_secs());
                assert((*self, action) == auto_refresh_step(*old(self), duration_secs(d)));
                action
            },
            None => Action::Idle,
        }
    }

    /// Records that opening `url` in the browser failed for `reason`.
    pub fn open_failed(&mut self, url: &str, reason: &str)
        ensures
            final(self).last_error matches Some(e) && e@ == "failed to open "@ + url@ + ": "@ + reason@,
            *final(self) == (App { last_error: final(self).last_error, ..*old(self) }),
            old(self).wf() ==> final(self).wf(),
    {
        let mut msg = String::from_str("failed to open ");
        msg.append(url);
        msg.append(": ");
        msg.append(reason);
        self.last_error = Some(msg);
    }
}

/// Moving down and then up returns to the same row, unless the selection was
/// already on the last row.
pub proof fn lemma_next_then_prev(app: App)
    requires
        app.wf(),
        app.selected matches Some(i) && i + 1 < app.prs.len(),
    ensures
        (App { selected: app.next_selection(), ..app }).prev_selection() == app.selected,
{
}

/// Moving up and then down returns to the same row, unless the selection was
/// already on the first row.
pub proof fn lemma_prev_then_next(app: App)
    requires
        app.wf(),
        app.selected matches Some(i) && i > 0,
    ensures
        (App { selected: app.prev_selection(), ..app }).next_selection() == app.selected,
{
}

/// On a non-empty list, jumping to the top selects the first pull request and
/// jumping to the bottom the last one; moving never leaves the list.
pub proof fn lemma_selection_in_list(app: App)
    requires
        app.wf(),
        app.prs.len() > 0,
    ensures
        app.first_selection() == Some(0usize),
        app.last_selection() == Some((app.prs.len() - 1) as usize),
        app.next_selection() matches Some(i) && i < app.prs.len(),
        app.prev_selection() matches Some(i) && i < app.prs.len(),
{
}

/// A refresh keeps the selected pull request selected when it is still in the
/// new list.
pub proof fn lemma_refresh_keeps_selection(prs: Seq<PrSummary>, keep: u32, sel: Option<usize>)
    requires
        reselected(prs, Some(keep), sel),
        exists|i: int| 0 <= i < prs.len() && #[trigger] prs[i].number == keep,
    ensures
        number_at(prs, sel) == Some(keep),
{
}

/// Opening the detail view and going back leaves the list, the selection and
/// everything else as they were, in the list view with no detail.
pub proof fn lemma_enter_then_back(app: App)
    ensures
        app.entered_detail().left_detail() == (App {
            mode: ViewMode::List,
            detail: None,
            loading_detail: false,
            ..app
        }),
{
}

/// While a view is loading, `r` sends no second request for it.
pub proof fn lemma_no_refresh_while_loading(app: App, key: Key)
    requires
        !app.show_help,
        key.code == KeyCode::Char('r'),
        !key.ctrl,
        match app.mode {
            ViewMode::List => app.loading_list,
            ViewMode::Detail(_) => app.loading_detail,
        },
    ensures
        key_step(app, key) == (app, Action::Idle),
{
}

/// While help is shown, no key but Control-C acts, except to close it.
pub proof fn lemma_help_captures_keys(app: App, key: Key)
    requires
        app.show_help,
        !(key.ctrl && key.code == KeyCode::Char('c')),
    ensures
        key_step(app, key).1 == Action::Idle,
        key_step(app, key).0 == app || key_step(app, key).0 == (App { show_help: false, ..app }),
{
}

/// Keys never change the list of pull requests, the repository or the
/// settings; only a worker reply brings a new list.
pub proof fn lemma_keys_keep_list(app: App, key: Key)
    ensures
        key_step(app, key).0.prs == app.prs,
        key_step(app, key).0.repo == app.repo,
        key_step(app, key).0.limit == app.limit,
        key_step(app, key).0.auto_refresh == app.auto_refresh,
        key_step(app, key).0.refresh_interval_secs == app.refresh_interval_secs,
        key_step(app, key).0.last_refresh == app.last_refresh,
{
}

/// A failed fetch keeps what is on screen: the list, the selection and the
/// detail stay as they were.
pub proof fn lemma_errors_keep_data(app: App, e: String, number: u32, refreshed: App)
    requires
        response_applied(app, Response::List(Err(e)), refreshed)
            || response_applied(app, Response::Detail { number, result: Err(e) }, refreshed),
    ensures
        refreshed.prs == app.prs,
        refreshed.selected == app.selected,
        refreshed.detail == app.detail,
        refreshed.mode == app.mode,
        refreshed.last_error == Some(e),
{
}

/// Control-C quits from anywhere: in the list, in the detail view and with
/// help shown, and it does nothing else.
pub proof fn lemma_ctrl_c_quits(app: App, key: Key)
    requires
        key.ctrl,
        key.code == KeyCode::Char('c'),
    ensures
        key_step(app, key) == (App { should_quit: true, ..app }, Action::Idle),
{
}

/// With help shown, `?`, `Esc` and `q` close it and change nothing else.
pub proof fn lemma_help_closes(app: App, key: Key)
    requires
        app.show_help,
        !key.ctrl || key.code != KeyCode::Char('c'),
        key.code == KeyCode::Char('?') || key.code == KeyCode::Esc || key.code == KeyCode::Char('q'),
    ensures
        key_step(app, key) == (App { show_help: false, ..app }, Action::Idle),
{
}

/// With help hidden, `?` shows it and changes nothing else.
pub proof fn lemma_help_opens(app: App, key: Key)
    requires
        !app.show_help,
        key.code == KeyCode::Char('?'),
    ensures
        key_step(app, key) == (App { show_help: true, ..app }, Action::Idle),
{
}

/// In the list view, on row `i` of a non-empty list: `j`/Down moves one row
/// down and `k`/Up one row up, stopping at the ends; `g`/Home goes to the
/// first row and `G`/End to the last; `Enter` opens that pull request and
/// asks for its detail. Only the selection (or, for `Enter`, the view) changes.
pub proof fn lemma_list_keys(app: App, key: Key, i: usize)
    requires
        !app.show_help,
        !key.ctrl || key.code != KeyCode::Char('c'),
        app.mode == ViewMode::List,
        app.selected == Some(i),
        i < app.prs.len(),
    ensures
        key.code == KeyCode::Char('j') || key.code == KeyCode::Down ==> key_step(app, key) == (
            App {
                selected: Some(
                    if i + 1 < app.prs.len() {
                        (i + 1) as usize
                    } else {
                        i
                    },
                ),
                ..app
            },
            Action::Idle,
        ),
        key.code == KeyCode::Char('k') || key.code == KeyCode::Up ==> key_step(app, key) == (
            App {
                selected: Some(
                    if i > 0 {
                        (i - 1) as usize
                    } else {
                        0usize
                    },
                ),
                ..app
            },
            Action::Idle,
        ),
        key.code == KeyCode::Char('g') || key.code == KeyCode::Home ==> key_step(app, key) == (
            App { selected: Some(0usize), ..app },
            Action::Idle,
        ),
        key.code == KeyCode::Char('G') || key.code == KeyCode::End ==> key_step(app, key) == (
            App { selected: Some((app.prs.len() - 1) as usize), ..app },
            Action::Idle,
        ),
        key.code == KeyCode::Enter ==> key_step(app, key) == (
            App {
                mode: ViewMode::Detail(app.prs@[i as int].number),
                detail: None,
                loading_detail: true,
                ..app
            },
            Action::Send(Request::FetchDetail { number: app.prs@[i as int].number }),
        ),
{
}

/// `q` quits from the list and goes back to the list from the detail view;
/// `Esc` goes back to the list from the detail view and does nothing in the list.
pub proof fn lemma_back_and_quit_keys(app: App, key: Key)
    requires
        !app.show_help,
        !key.ctrl || key.code != KeyCode::Char('c'),
    ensures
        key.code == KeyCode::Char('q') && app.mode == ViewMode::List ==> key_step(app, key) == (
            App { should_quit: true, ..app },
            Action::Idle,
        ),
        (key.code == KeyCode::Char('q') || key.code == KeyCode::Esc) && app.mode !is List
            ==> key_step(app, key) == (
            App { mode: ViewMode::List, detail: None, loading_detail: false, ..app },
            Action::Idle,
        ),
        key.code == KeyCode::Esc && app.mode == ViewMode::List ==> key_step(app, key) == (
            app,
            Action::Idle,
        ),
{
}

/// `r` refetches what the view shows when it is not loading: the list with
/// the configured limit, or the detail of the shown pull request.
pub proof fn lemma_refresh_key(app: App, key: Key, n: u32)
    requires
        !app.show_help,
        key.code == KeyCode::Char('r'),
    ensures
        app.mode == ViewMode::List && !app.loading_list ==> key_step(app, key) == (
            App { loading_list: true, ..app },
            Action::Send(Request::FetchList { limit: app.limit }),
        ),
        app.mode == ViewMode::Detail(n) && !app.loading_detail ==> key_step(app, key) == (
            App { loading_detail: true, ..app },
            Action::Send(Request::FetchDetail { number: n }),
        ),
{
}

/// `o` asks to open the selected pull request's address in the list view,
/// and the shown detail's address in the detail view, changing nothing.
pub proof fn lemma_open_key(app: App, key: Key, i: usize, d: PrDetail)
    requires
        !app.show_help,
        key.code == KeyCode::Char('o'),
    ensures
        key_step(app, key).0 == app,
        app.mode == ViewMode::List && app.selected == Some(i) && i < app.prs.len()
            ==> key_step(app, key).1 == Action::OpenUrl(app.prs@[i as int].url),
        app.mode !is List && app.detail == Some(d) ==> key_step(app, key).1 == Action::OpenUrl(
            d.summary.url,
        ),
{
}

/// The refresh timer waits: fewer seconds than the interval since the last
/// refresh start nothing and change nothing.
pub proof fn lemma_auto_refresh_waits(app: App, elapsed: u64)
    requires
        elapsed < app.refresh_interval_secs,
    ensures
        auto_refresh_step(app, elapsed) == (app, Action::Idle),
{
}

/// Once the interval has passed since a refresh, with auto-refresh on and no
/// list loading, the timer fetches the list with the configured limit.
pub proof fn lemma_auto_refresh_fires(app: App, elapsed: u64)
    requires
        app.auto_refresh,
        !app.loading_list,
        app.last_refresh is Some,
        elapsed >= app.refresh_interval_secs,
    ensures
        auto_refresh_step(app, elapsed) == (
            App { loading_list: true, ..app },
            Action::Send(Request::FetchList { limit: app.limit }),
        ),
{
}

/// The timer never fires while auto-refresh is off, while a list loads, or
/// before the first refresh, however much time has passed.
pub proof fn lemma_auto_refresh_idle(app: App, elapsed: u64)
    requires
        !app.auto_refresh || app.loading_list || app.last_refresh is None,
    ensures
        auto_refresh_step(app, elapsed) == (app, Action::Idle),
{
}

} // verus!
