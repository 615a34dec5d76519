//! The state of the launcher's window: the text that was typed, the mode,
//! the results and the selection.
//!
//! Drawing and the clock are not here.  Whoever owns the window reports
//! what the user did, with the time in milliseconds where time matters, and
//! carries out the [`Outcome`] that comes back.
//!
//! In window mode every change of the text is searched at once.  In browser
//! mode a search may be slow, so it waits until the text has been left alone
//! for [`DEBOUNCE_MS`].

use vstd::prelude::*;
use vstd::string::StringExecFns;
use crate::engine::launcher::{LauncherCore, url_to_open};
use crate::engine::search_engine::{
    SearchEngine,
    SearchMode,
    SearchResult,
    SearchResultView,
};
use crate::engine::window_manager::WindowManager;
use crate::text::str_equal;
use crate::ui::alt_tab_grid::{AltTabGrid, GridKey};
use crate::ui::browser_list::{BrowserList, BrowserListView, ListKey, list_after_key};

verus! {

/// How long the text has to be left alone before browser mode searches, in
/// milliseconds.
pub const DEBOUNCE_MS: u64 = 500;

/// How long to wait before looking again whether the text was left alone,
/// in milliseconds.
pub const REPAINT_INTERVAL_MS: u64 = 50;

/// A search that waits for the text to be left alone.
#[derive(Debug)]
pub struct Debouncer {
    last_input_change: Option<u64>,
    pending_search_text: Option<String>,
    debounce_ms: u64,
}

/// The content of a [`Debouncer`]: when the text last changed and what it
/// was then, if a search is waiting, and how long a search waits.
pub struct DebouncerView {
    pub waiting: Option<(u64, Seq<char>)>,
    pub debounce_ms: u64,
}

impl View for Debouncer {
    type V = DebouncerView;

    closed spec fn view(&self) -> DebouncerView {
        DebouncerView {
            waiting: match (self.last_input_change, self.pending_search_text) {
                (Some(at), Some(text)) => Some((at, text@)),
                _ => None,
            },
            debounce_ms: self.debounce_ms,
        }
    }
}

/// What a look at the waiting search finds.
#[derive(Debug, Clone, Copy, PartialEq, Eq, Structural)]
pub enum DebounceAction {
    /// No search is waiting.
    Idle,
    /// The wait is over and the text is what it was: search now.
    SearchNow,
    /// The wait is over but the text has changed since: the wait begins
    /// anew.  Look again at once.
    Restarted,
    /// The wait is not over.  Look again after this many milliseconds.
    Wait { repaint_after_ms: u64 },
}

/// The time that has passed from `since` to `now`; none if the clock went
/// back.
pub open spec fn elapsed_ms(since: u64, now: u64) -> int {
    if now >= since {
        now - since
    } else {
        0
    }
}

/// What a look at the waiting search finds at time `now`, when the text is
/// `text`.
pub open spec fn debounce_action(state: DebouncerView, now: u64, text: Seq<char>) -> DebounceAction {
    match state.waiting {
        None => DebounceAction::Idle,
        Some((since, pending)) => if elapsed_ms(since, now) >= state.debounce_ms {
            if pending == text {
                DebounceAction::SearchNow
            } else {
                DebounceAction::Restarted
            }
        } else {
            DebounceAction::Wait { repaint_after_ms: REPAINT_INTERVAL_MS }
        },
    }
}

/// What is left waiting after a look at time `now`, when the text is `text`.
pub open spec fn debounce_after(state: DebouncerView, now: u64, text: Seq<char>) -> DebouncerView {
    match debounce_action(state, now, text) {
        DebounceAction::SearchNow => DebouncerView {
            waiting: None,
            debounce_ms: state.debounce_ms,
        },
        DebounceAction::Restarted => DebouncerView {
            waiting: Some((now, text)),
            debounce_ms: state.debounce_ms,
        },
        _ => state,
    }
}

impl Debouncer {
    /// A debouncer with no search waiting.
    pub fn new() -> (r: Self)
        ensures
            r@ == (DebouncerView { waiting: None, debounce_ms: DEBOUNCE_MS }),
    {
        Debouncer { last_input_change: None, pending_search_text: None, debounce_ms: DEBOUNCE_MS }
    }

    /// Takes note that the text changed to `text` at time `now`: a search
    /// for it waits from now on.
    pub fn input_changed(&mut self, now: u64, text: &str)
        ensures
            final(self)@ == (DebouncerView {
                waiting: Some((now, text@)),
                debounce_ms: old(self)@.debounce_ms,
            }),
    {
        self.last_input_change = Some(now);
        self.pending_search_text = Some(String::from_str(text));
    }

    /// Gives the waiting search up.
    pub fn cancel(&mut self)
        ensures
            final(self)@ == (DebouncerView { waiting: None, debounce_ms: old(self)@.debounce_ms }),
    {
        self.last_input_change = None;
        self.pending_search_text = None;
    }

    /// Looks at the waiting search at time `now`, when the text is `text`.
    pub fn poll(&mut self, now: u64, text: &str) -> (r: DebounceAction)
        ensures
            r == debounce_action(old(self)@, now, text@),
            final(self)@ == debounce_after(old(self)@, now, text@),
    {
        let since = match self.last_input_change {
            Some(at) => at,
            None => {
                return DebounceAction::Idle;
            },
        };
        let same = match &self.pending_search_text {
            Some(pending) => str_equal(pending.as_str(), text),
            None => {
                return DebounceAction::Idle;
            },
        };
        let elapsed = if now >= since {
            now - since
        } else {
            0
        };
        if elapsed >= self.debounce_ms {
            if same {
                self.last_input_change = None;
                self.pending_search_text = None;
                DebounceAction::SearchNow
            } else {
                self.last_input_change = Some(now);
                self.pending_search_text = Some(String::from_str(text));
                DebounceAction::Restarted
            }
        } else {
            DebounceAction::Wait { repaint_after_ms: REPAINT_INTERVAL_MS }
        }
    }
}

/// The selection that fits a list of `count` items: a selection beyond the
/// end goes to the last item, and any other stays.  An empty list leaves
/// the selection alone.
pub open spec fn clamped_selection(selected: int, count: int) -> int {
    if selected >= count && count > 0 {
        count - 1
    } else {
        selected
    }
}

/// Where the selection of the window list stands after a key.  The keys
/// move as in a grid, but do not wrap around: right and left stop at the
/// ends.
pub open spec fn bounded_selection_after(selected: int, columns: int, count: int, key: GridKey) -> int {
    match key {
        GridKey::Right => if selected + 1 < count {
            selected + 1
        } else {
            selected
        },
        GridKey::Left => if selected > 0 {
            selected - 1
        } else {
            selected
        },
        GridKey::Down => if selected + columns < count {
            selected + columns
        } else {
            selected
        },
        GridKey::Up => if selected >= columns {
            selected - columns
        } else {
            selected
        },
        GridKey::Home => 0,
        GridKey::End => if count > 0 {
            count - 1
        } else {
            selected
        },
    }
}

/// The key of the grid that a key of the window stands for in window mode,
/// if it stands for one.
pub open spec fn grid_key_of(key: AppKey) -> Option<GridKey> {
    match key {
        AppKey::Right => Some(GridKey::Right),
        AppKey::Left => Some(GridKey::Left),
        AppKey::Down => Some(GridKey::Down),
        AppKey::Up => Some(GridKey::Up),
        _ => None,
    }
}

/// The key of the result list that a key of the window stands for in
/// browser mode, if it stands for one.
pub open spec fn list_key_of(key: AppKey) -> Option<ListKey> {
    match key {
        AppKey::Down => Some(ListKey::Down),
        AppKey::Up => Some(ListKey::Up),
        AppKey::Home => Some(ListKey::Home),
        AppKey::End => Some(ListKey::End),
        _ => None,
    }
}

/// The result list after a key of the window: in browser mode the list
/// acts on the key that the key stands for, and in window mode it stays as
/// it is.
pub open spec fn list_after_app_key(
    mode: SearchMode,
    list: BrowserListView,
    key: AppKey,
    count: int,
) -> BrowserListView {
    match mode {
        SearchMode::Windows => list,
        SearchMode::Browser => match list_key_of(key) {
            Some(list_key) => list_after_key(list, list_key, count),
            None => list,
        },
    }
}

/// The selection of the window after a key other than tab.  In window mode
/// the arrow keys move it over the grid; in browser mode it follows the
/// selection that the result list has after the key.  Home and end then go
/// to the first and to the last of the results.
pub open spec fn selection_after_app_key(
    mode: SearchMode,
    selected: int,
    columns: int,
    list_selected: int,
    count: int,
    key: AppKey,
) -> int {
    let moved = match mode {
        SearchMode::Windows => match grid_key_of(key) {
            Some(grid_key) => bounded_selection_after(selected, columns, count, grid_key),
            None => selected,
        },
        SearchMode::Browser => list_selected,
    };
    match key {
        AppKey::Home => 0,
        AppKey::End => if count > 0 {
            count - 1
        } else {
            moved
        },
        _ => moved,
    }
}

/// The selection that fits a list of `count` items.
pub fn clamp_selection(selected: usize, count: usize) -> (r: usize)
    ensures
        r == clamped_selection(selected as int, count as int),
{
    if selected >= count && count > 0 {
        count - 1
    } else {
        selected
    }
}

/// Where the selection of the window list stands after a key.
pub fn bounded_selection(selected: usize, columns: usize, count: usize, key: GridKey) -> (r: usize)
    ensures
        r == bounded_selection_after(selected as int, columns as int, count as int, key),
{
    match key {
        GridKey::Right => if count > 0 && selected < count - 1 {
            selected + 1
        } else {
            selected
        },
        GridKey::Left => if selected > 0 {
            selected - 1
        } else {
            selected
        },
        GridKey::Down => if columns < count && selected < count - columns {
            selected + columns
        } else {
            selected
        },
        GridKey::Up => if selected >= columns {
            selected - columns
        } else {
            selected
        },
        GridKey::Home => 0,
        GridKey::End => if count > 0 {
            count - 1
        } else {
            selected
        },
    }
}

/// The other mode.
pub fn other_mode(mode: SearchMode) -> (r: SearchMode)
    ensures
        r != mode,
{
    match mode {
        SearchMode::Browser => SearchMode::Windows,
        SearchMode::Windows => SearchMode::Browser,
    }
}

/// A key of the launcher's window.
#[derive(Debug, Clone, Copy, PartialEq, Eq, Structural)]
pub enum AppKey {
    /// Switches between browser mode and window mode.
    Tab,
    Right,
    Left,
    Down,
    Up,
    Home,
    End,
    /// Carries out the selected result.
    Enter,
    /// Closes the window.
    Escape,
}

/// What the window has to do after the user did something.
#[derive(Debug)]
pub enum Outcome {
    /// Nothing but to draw again.
    Stay,
    /// Close.
    Close,
    /// Open this URL, then close.
    OpenAndClose(String),
}

/// The content of an [`Outcome`].
pub enum OutcomeView {
    Stay,
    Close,
    OpenAndClose(Seq<char>),
}

impl View for Outcome {
    type V = OutcomeView;

    open spec fn view(&self) -> OutcomeView {
        match *self {
            Outcome::Stay => OutcomeView::Stay,
            Outcome::Close => OutcomeView::Close,
            Outcome::OpenAndClose(url) => OutcomeView::OpenAndClose(url@),
        }
    }
}

/// What carrying a result out leads to: the window closes, after the
/// result's URL was opened if it has one.
pub open spec fn outcome_of(result: SearchResultView) -> OutcomeView {
    match url_to_open(result.action) {
        Some(url) => OutcomeView::OpenAndClose(url),
        None => OutcomeView::Close,
    }
}

/// The title of the first of some results, if there is one.
pub open spec fn first_title(results: Seq<SearchResultView>) -> Option<Seq<char>> {
    if results.len() > 0 {
        Some(results[0].title)
    } else {
        None
    }
}

/// Where the selection of the result list stands after a search: at the
/// beginning when the first result has another title than before, where it
/// stood when it has the same; and on the last result if that is beyond
/// the results.
pub open spec fn list_selection_after_search(
    selected: int,
    before: Seq<SearchResultView>,
    after: Seq<SearchResultView>,
) -> int {
    clamped_selection(
        if first_title(before) == first_title(after) {
            selected
        } else {
            0
        },
        after.len() as int,
    )
}

/// The state of the launcher's window.
pub struct LauncherApp<S: SearchEngine, W: WindowManager> {
    launcher: LauncherCore<S, W>,
    input_text: String,
    mode: SearchMode,
    search_results: Vec<SearchResult>,
    grid: AltTabGrid,
    browser_list: BrowserList,
    debouncer: Debouncer,
}

impl<S: SearchEngine, W: WindowManager> LauncherApp<S, W> {
    /// The launcher's core.
    pub closed spec fn launcher(&self) -> LauncherCore<S, W> {
        self.launcher
    }

    /// The text that was typed.
    pub closed spec fn input(&self) -> Seq<char> {
        self.input_text@
    }

    /// The mode.
    pub closed spec fn mode(&self) -> SearchMode {
        self.mode
    }

    /// The results that are shown, as the core returned them.
    pub closed spec fn results(&self) -> Vec<SearchResult> {
        self.search_results
    }

    /// The selection of the window list.
    pub closed spec fn grid(&self) -> AltTabGrid {
        self.grid
    }

    /// The state of the result list of browser mode.
    pub closed spec fn list(&self) -> BrowserListView {
        self.browser_list@
    }

    /// The waiting search.
    pub closed spec fn debounce(&self) -> DebouncerView {
        self.debouncer@
    }

    /// That the results that are shown were searched for `text` in `mode`
    /// and that both selections fit them.
    pub open spec fn shows_results_for(&self, text: Seq<char>, mode: SearchMode) -> bool {
        &&& exists|query: &str|
            query@ == text && #[trigger] self.launcher().is_search_answer(
                query,
                mode,
                self.results(),
            )
        &&& self.results()@.len() > 0 ==> self.grid().selected_index < self.results()@.len()
            && self.list().selected_index < self.results()@.len()
    }

    /// The state of a window that opens in window mode, with nothing typed
    /// and the results of the empty query shown.
    pub fn new(launcher: LauncherCore<S, W>) -> (r: Self)
        ensures
            r.launcher() == launcher,
            r.input() == Seq::<char>::empty(),
            r.mode() == SearchMode::Windows,
            r.debounce().waiting is None,
            r.grid().selected_index == 0,
            r.list().selected_index == 0,
            r.shows_results_for(r.input(), r.mode()),
    {
        let mut app = LauncherApp {
            launcher,
            input_text: String::new(),
            mode: SearchMode::Windows,
            search_results: Vec::new(),
            grid: AltTabGrid::new(),
            browser_list: BrowserList::new(),
            debouncer: Debouncer::new(),
        };
        app.update_search();
        app
    }

    /// The text that was typed.
    pub fn input_text(&self) -> (r: &str)
        ensures
            r@ == self.input(),
    {
        self.input_text.as_str()
    }

    /// The mode.
    pub fn search_mode(&self) -> (r: SearchMode)
        ensures
            r == self.mode(),
    {
        self.mode
    }

    /// The results that are shown.
    pub fn search_results(&self) -> (r: &Vec<SearchResult>)
        ensures
            *r == self.results(),
    {
        &self.search_results
    }

    /// The index of the selected result.
    pub fn selected_index(&self) -> (r: usize)
        ensures
            r == self.grid().selected_index,
    {
        self.grid.selected_index
    }

    fn search_now(&self) -> (r: Vec<SearchResult>)
        ensures
            exists|query: &str|
                query@ == self.input() && #[trigger] self.launcher().is_search_answer(
                    query,
                    self.mode(),
                    r,
                ),
    {
        let query = self.input_text.as_str();
        let results = self.launcher.search(query, self.mode);
        assert(query@ == self.input() && self.launcher().is_search_answer(
            query,
            self.mode(),
            results,
        ));
        results
    }

    /// Searches for the text in the mode and takes the results.  The result
    /// list goes back to its beginning when the first result has another
    /// title than before, and a selection beyond the new results goes to the
    /// last of them.
    pub fn update_search(&mut self)
        ensures
            final(self).launcher() == old(self).launcher(),
            final(self).input() == old(self).input(),
            final(self).mode() == old(self).mode(),
            final(self).debounce() == old(self).debounce(),
            final(self).grid().columns == old(self).grid().columns,
            final(self).shows_results_for(old(self).input(), old(self).mode()),
            final(self).grid().selected_index == clamped_selection(
                old(self).grid().selected_index as int,
                final(self).results()@.len() as int,
            ),
            final(self).list().selected_index == list_selection_after_search(
                old(self).list().selected_index,
                old(self).results().deep_view(),
                final(self).results().deep_view(),
            ),
    {
        let results = self.search_now();
        let ghost witness = choose|query: &str|
            query@ == self.input() && #[trigger] self.launcher().is_search_answer(
                query,
                self.mode(),
                results,
            );
        let same_first = if self.search_results.len() > 0 {
            if results.len() > 0 {
                let same = str_equal(
                    self.search_results[0].title.as_str(),
                    results[0].title.as_str(),
                );
                same
            } else {
                false
            }
        } else {
            results.len() == 0
        };
        self.search_results = results;
        if !same_first {
            self.browser_list.reset_for_new_search();
        }
        let count = self.search_results.len();
        self.grid.selected_index = clamp_selection(self.grid.selected_index, count);
        self.browser_list.select(clamp_selection(self.browser_list.selected(), count));
        assert(witness@ == self.input() && self.launcher().is_search_answer(
            witness,
            self.mode(),
            self.results(),
        ));
    }

    /// Gives the waiting search up and searches at once.
    pub fn force_search(&mut self)
        ensures
            final(self).launcher() == old(self).launcher(),
            final(self).input() == old(self).input(),
            final(self).mode() == old(self).mode(),
            final(self).debounce().waiting is None,
            final(self).grid().columns == old(self).grid().columns,
            final(self).shows_results_for(old(self).input(), old(self).mode()),
            final(self).grid().selected_index == clamped_selection(
                old(self).grid().selected_index as int,
                final(self).results()@.len() as int,
            ),
            final(self).list().selected_index == list_selection_after_search(
                old(self).list().selected_index,
                old(self).results().deep_view(),
                final(self).results().deep_view(),
            ),
    {
        self.debouncer.cancel();
        self.update_search();
    }

    /// Goes to the other mode, with the first result selected, and searches
    /// at once.
    pub fn switch_mode(&mut self)
        ensures
            final(self).launcher() == old(self).launcher(),
            final(self).input() == old(self).input(),
            final(self).mode() != old(self).mode(),
            final(self).debounce().waiting is None,
            final(self).grid().selected_index == 0,
            final(self).list().selected_index == 0,
            final(self).shows_results_for(old(self).input(), final(self).mode()),
    {
        self.mode = other_mode(self.mode);
        self.grid.selected_index = 0;
        self.browser_list.select(0);
        self.force_search();
    }

    /// Takes the text that the user has now typed, at time `now`.  The first
    /// result is selected.  Window mode searches at once; browser mode lets
    /// the search wait.
    pub fn set_input(&mut self, text: String, now: u64)
        ensures
            final(self).launcher() == old(self).launcher(),
            final(self).input() == text@,
            final(self).mode() == old(self).mode(),
            final(self).mode() == SearchMode::Windows ==> final(self).debounce() == old(self).debounce() && final(self).shows_results_for(text@, SearchMode::Windows),
            final(self).mode() == SearchMode::Browser ==> final(self).debounce().waiting == Some(
                (now, text@),
            ) && final(self).results() == old(self).results() && final(self).grid().selected_index
                == 0,
    {
        self.input_text = text;
        self.grid.selected_index = 0;
        match self.mode {
            SearchMode::Windows => {
                self.update_search();
            },
            SearchMode::Browser => {
                self.debouncer.input_changed(now, self.input_text.as_str());
            },
        }
    }

    /// Looks at the waiting search at time `now` and searches if its wait
    /// is over.
    pub fn on_frame(&mut self, now: u64) -> (r: DebounceAction)
        ensures
            final(self).launcher() == old(self).launcher(),
            final(self).input() == old(self).input(),
            final(self).mode() == old(self).mode(),
            r == debounce_action(old(self).debounce(), now, old(self).input()),
            final(self).debounce() == debounce_after(old(self).debounce(), now, old(self).input()),
            r == DebounceAction::SearchNow ==> final(self).shows_results_for(old(self).input(), old(self).mode()),
            r != DebounceAction::SearchNow ==> final(self).results() == old(self).results()
                && final(self).grid() == old(self).grid() && final(self).list() == old(self).list(),
    {
        let action = self.debouncer.poll(now, self.input_text.as_str());
        match action {
            DebounceAction::SearchNow => {
                self.update_search();
            },
            _ => {},
        }
        action
    }

    /// What carrying out the selected result leads to.  A switch to a
    /// window is made at once; a URL is handed back to be opened.  Without a
    /// selected result nothing happens.
    pub fn execute_selected(&self) -> (r: Outcome)
        ensures
            r@ == (if self.grid().selected_index < self.results()@.len() {
                outcome_of(self.results()@[self.grid().selected_index as int]@)
            } else {
                OutcomeView::Stay
            }),
    {
        if self.grid.selected_index < self.search_results.len() {
            let result = &self.search_results[self.grid.selected_index];
            match self.launcher.execute_action(&result.action) {
                Some(url) => Outcome::OpenAndClose(url),
                None => Outcome::Close,
            }
        } else {
            Outcome::Stay
        }
    }

    /// In browser mode the selection of the window follows the selection of
    /// the result list.  A window that draws a frame without a key calls
    /// this at the end of the frame.
    pub fn sync_selection(&mut self)
        ensures
            final(self).launcher() == old(self).launcher(),
            final(self).input() == old(self).input(),
            final(self).mode() == old(self).mode(),
            final(self).results() == old(self).results(),
            final(self).debounce() == old(self).debounce(),
            final(self).list() == old(self).list(),
            final(self).grid().columns == old(self).grid().columns,
            final(self).grid().selected_index == (match old(self).mode() {
                SearchMode::Browser => old(self).list().selected_index,
                SearchMode::Windows => old(self).grid().selected_index as int,
            }),
    {
        match self.mode {
            SearchMode::Browser => {
                self.grid.selected_index = self.browser_list.selected();
            },
            SearchMode::Windows => {},
        }
    }

    /// Acts on one key.
    ///
    /// Tab switches the mode.  In window mode the arrow keys move the
    /// selection over the grid without wrapping around.  In browser mode
    /// up, down, home and end move the selection of the result list, and the
    /// selection of the window follows it.  Home and end go to the first and
    /// the last result in either mode.  Enter carries the result out that is
    /// then selected, and escape closes the window.
    pub fn handle_keyboard_input(&mut self, key: AppKey) -> (r: Outcome)
        ensures
            final(self).launcher() == old(self).launcher(),
            final(self).input() == old(self).input(),
            key == AppKey::Tab ==> {
                &&& r@ is Stay
                &&& final(self).mode() != old(self).mode()
                &&& final(self).debounce().waiting is None
                &&& final(self).grid().selected_index == 0
                &&& final(self).list().selected_index == 0
                &&& final(self).shows_results_for(old(self).input(), final(self).mode())
            },
            key != AppKey::Tab ==> {
                &&& final(self).mode() == old(self).mode()
                &&& final(self).results() == old(self).results()
                &&& final(self).debounce() == old(self).debounce()
                &&& final(self).grid().columns == old(self).grid().columns
                &&& final(self).list() == list_after_app_key(
                    old(self).mode(),
                    old(self).list(),
                    key,
                    old(self).results()@.len() as int,
                )
                &&& final(self).grid().selected_index == selection_after_app_key(
                    old(self).mode(),
                    old(self).grid().selected_index as int,
                    old(self).grid().columns as int,
                    final(self).list().selected_index,
                    old(self).results()@.len() as int,
                    key,
                )
                &&& r@ == (match key {
                    AppKey::Enter => if final(self).grid().selected_index < old(
                        self,
                    ).results()@.len() {
                        outcome_of(
                            old(self).results()@[final(self).grid().selected_index as int]@,
                        )
                    } else {
                        OutcomeView::Stay
                    },
                    AppKey::Escape => OutcomeView::Close,
                    _ => OutcomeView::Stay,
                })
            },
    {
        let count = self.search_results.len();
        match key {
            AppKey::Tab => {
                self.switch_mode();
                return Outcome::Stay;
            },
            _ => {},
        }
        match self.mode {
            SearchMode::Windows => {
                let moved = match key {
                    AppKey::Right => Some(GridKey::Right),
                    AppKey::Left => Some(GridKey::Left),
                    AppKey::Down => Some(GridKey::Down),
                    AppKey::Up => Some(GridKey::Up),
                    _ => None,
                };
                match moved {
                    Some(direction) => {
                        self.grid.selected_index = bounded_selection(
                            self.grid.selected_index,
                            self.grid.columns,
                            count,
                            direction,
                        );
                    },
                    None => {},
                }
            },
            SearchMode::Browser => {
                let moved = match key {
                    AppKey::Down => Some(ListKey::Down),
                    AppKey::Up => Some(ListKey::Up),
                    AppKey::Home => Some(ListKey::Home),
                    AppKey::End => Some(ListKey::End),
                    _ => None,
                };
                match moved {
                    Some(direction) => {
                        self.browser_list.handle_keyboard(direction, count);
                    },
                    None => {},
                }
                self.grid.selected_index = self.browser_list.selected();
            },
        }
        match key {
            AppKey::Home => {
                self.grid.selected_index = 0;
                Outcome::Stay
            },
            AppKey::End => {
                if count > 0 {
                    self.grid.selected_index = count - 1;
                }
                Outcome::Stay
            },
            AppKey::Enter => self.execute_selected(),
            AppKey::Escape => Outcome::Close,
            _ => Outcome::Stay,
        }
    }
}

} // verus!
