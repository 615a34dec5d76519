//! Search over the launcher's sources: in browser mode a query becomes a web
//! search, in window mode it selects among the open windows.

use vstd::prelude::*;
use vstd::string::StringExecFns;
use crate::engine::window_manager::{WindowInfo, WindowInfoView, window_contains_text};
use crate::text::{decimal, i64_to_string};
use crate::ui::alt_tab_grid::GridItem;

verus! {

/// The most windows that a query may select.  The list of all windows, which
/// the empty query asks for, is not cut.
pub const MAX_WINDOW_RESULTS: usize = 10;

/// What the launcher searches.
#[derive(Debug, Clone, Copy, PartialEq, Eq, Structural)]
pub enum SearchMode {
    Browser,
    Windows,
}

/// What choosing a result does.
#[derive(Debug, PartialEq)]
pub enum Action {
    /// Bring the window with this handle to the front.
    SwitchWindow(isize),
    /// Search the web for this text.
    GoogleSearch(String),
    /// Open the bookmark with this URL.
    OpenBookmark(String),
    /// Open the page of the history with this URL.
    OpenHistory(String),
}

/// The content of an [`Action`].
pub enum ActionView {
    SwitchWindow(isize),
    GoogleSearch(Seq<char>),
    OpenBookmark(Seq<char>),
    OpenHistory(Seq<char>),
}

impl View for Action {
    type V = ActionView;

    open spec fn view(&self) -> ActionView {
        match *self {
            Action::SwitchWindow(hwnd) => ActionView::SwitchWindow(hwnd),
            Action::GoogleSearch(query) => ActionView::GoogleSearch(query@),
            Action::OpenBookmark(url) => ActionView::OpenBookmark(url@),
            Action::OpenHistory(url) => ActionView::OpenHistory(url@),
        }
    }
}

impl Clone for Action {
    fn clone(&self) -> (r: Self)
        ensures
            r == *self,
    {
        match self {
            Action::SwitchWindow(hwnd) => Action::SwitchWindow(*hwnd),
            Action::GoogleSearch(query) => Action::GoogleSearch(query.clone()),
            Action::OpenBookmark(url) => Action::OpenBookmark(url.clone()),
            Action::OpenHistory(url) => Action::OpenHistory(url.clone()),
        }
    }
}

/// Where a result comes from.
#[derive(Debug, Clone, Copy, PartialEq, Eq, Structural)]
pub enum ResultType {
    GoogleSearch,
    Bookmark,
    History,
    Window,
}

/// One line of a result list.
#[derive(Debug)]
pub struct SearchResult {
    pub title: String,
    pub description: String,
    pub action: Action,
    pub window_info: Option<WindowInfo>,
    pub result_type: ResultType,
}

/// The content of a [`SearchResult`].
pub struct SearchResultView {
    pub title: Seq<char>,
    pub description: Seq<char>,
    pub action: ActionView,
    pub window_info: Option<WindowInfoView>,
    pub result_type: ResultType,
}

impl View for SearchResult {
    type V = SearchResultView;

    open spec fn view(&self) -> SearchResultView {
        SearchResultView {
            title: self.title@,
            description: self.description@,
            action: self.action@,
            window_info: self.window_info.deep_view(),
            result_type: self.result_type,
        }
    }
}

impl DeepView for SearchResult {
    type V = SearchResultView;

    open spec fn deep_view(&self) -> SearchResultView {
        self@
    }
}

impl Clone for SearchResult {
    fn clone(&self) -> (r: Self)
        ensures
            r == *self,
    {
        SearchResult {
            title: self.title.clone(),
            description: self.description.clone(),
            action: self.action.clone(),
            window_info: match &self.window_info {
                Some(window) => Some(window.clone()),
                None => None,
            },
            result_type: self.result_type,
        }
    }
}

/// The handle of the window that a result stands for; zero for a result
/// that stands for none.
pub open spec fn result_hwnd(result: SearchResultView) -> isize {
    match result.window_info {
        Some(window) => window.hwnd,
        None => 0,
    }
}

/// The text that names a result among the results of a search: the handle
/// for a window, and the kind and the text of the action for the others.
pub open spec fn result_id(action: ActionView) -> Seq<char> {
    match action {
        ActionView::SwitchWindow(hwnd) => decimal(hwnd as int),
        ActionView::GoogleSearch(query) => "google:"@ + query,
        ActionView::OpenBookmark(url) => "bookmark:"@ + url,
        ActionView::OpenHistory(url) => "history:"@ + url,
    }
}

impl GridItem for SearchResult {
    fn title(&self) -> (r: &str)
        ensures
            r@ == self@.title,
    {
        self.title.as_str()
    }

    fn description(&self) -> (r: &str)
        ensures
            r@ == self@.description,
    {
        self.description.as_str()
    }

    fn hwnd(&self) -> (r: isize)
        ensures
            r == result_hwnd(self@),
    {
        match &self.window_info {
            Some(window) => window.hwnd,
            None => 0,
        }
    }

    fn id(&self) -> (r: String)
        ensures
            r@ == result_id(self@.action),
    {
        match &self.action {
            Action::SwitchWindow(hwnd) => i64_to_string(*hwnd as i64),
            Action::GoogleSearch(query) => {
                let mut id = String::from_str("google:");
                id.append(query.as_str());
                id
            },
            Action::OpenBookmark(url) => {
                let mut id = String::from_str("bookmark:");
                id.append(url.as_str());
                id
            },
            Action::OpenHistory(url) => {
                let mut id = String::from_str("history:");
                id.append(url.as_str());
                id
            },
        }
    }
}

/// The result that offers a web search for `query`.
pub open spec fn google_result(query: Seq<char>) -> SearchResultView {
    SearchResultView {
        title: "Google: "@ + query,
        description: "Search on Google"@,
        action: ActionView::GoogleSearch(query),
        window_info: None,
        result_type: ResultType::GoogleSearch,
    }
}

/// The result that stands for a window: its title, then its process and
/// class, and the switch to it as the action.
pub open spec fn window_result(window: WindowInfoView) -> SearchResultView {
    SearchResultView {
        title: window.title,
        description: window.process_name + " - "@ + window.class_name,
        action: ActionView::SwitchWindow(window.hwnd),
        window_info: Some(window),
        result_type: ResultType::Window,
    }
}

/// The windows that a query selects, in the order of the window list: all
/// of them for the empty query, and otherwise the first
/// [`MAX_WINDOW_RESULTS`] of those that contain the query.
pub open spec fn selected_windows(windows: Seq<WindowInfoView>, query: Seq<char>) -> Seq<
    WindowInfoView,
> {
    if query.len() == 0 {
        windows
    } else {
        let hits = windows.filter(|w: WindowInfoView| window_contains_text(w, query));
        if hits.len() > MAX_WINDOW_RESULTS {
            hits.take(MAX_WINDOW_RESULTS as int)
        } else {
            hits
        }
    }
}

/// The results of a search among windows.
pub open spec fn window_results(windows: Seq<WindowInfoView>, query: Seq<char>) -> Seq<
    SearchResultView,
> {
    selected_windows(windows, query).map_values(|w: WindowInfoView| window_result(w))
}

/// The results of the plain engine: in browser mode the web search for a
/// query that is not empty and nothing for one that is; in window mode the
/// windows that the query selects.
pub open spec fn default_results(
    query: Seq<char>,
    mode: SearchMode,
    windows: Seq<WindowInfoView>,
) -> Seq<SearchResultView> {
    match mode {
        SearchMode::Browser => if query.len() == 0 {
            Seq::empty()
        } else {
            seq![google_result(query)]
        },
        SearchMode::Windows => window_results(windows, query),
    }
}

/// A source of results.  The launcher asks it with the query, the mode and
/// the windows it has cached.
pub trait SearchEngine {
    /// The results for `query` in `mode`.
    fn search(&self, query: &str, mode: SearchMode, windows: &[WindowInfo]) -> Vec<SearchResult>;

    /// Whether a search in `mode` looks at windows.
    fn is_window_search(&self, query: &str, mode: SearchMode) -> bool;
}

/// The result that offers a web search for `query`.
pub fn google_result_for(query: &str) -> (r: SearchResult)
    ensures
        r@ == google_result(query@),
{
    let mut title = String::from_str("Google: ");
    title.append(query);
    SearchResult {
        title,
        description: String::from_str("Search on Google"),
        action: Action::GoogleSearch(String::from_str(query)),
        window_info: None,
        result_type: ResultType::GoogleSearch,
    }
}

/// The result that stands for a window.
pub fn window_result_for(window: &WindowInfo) -> (r: SearchResult)
    ensures
        r@ == window_result(window@),
{
    let mut description = window.process_name.clone();
    description.append(" - ");
    description.append(window.class_name.as_str());
    SearchResult {
        title: window.title.clone(),
        description,
        action: Action::SwitchWindow(window.hwnd),
        window_info: Some(window.clone()),
        result_type: ResultType::Window,
    }
}

/// Searches among windows: every window for the empty query, and otherwise
/// the first [`MAX_WINDOW_RESULTS`] windows whose title, process name or
/// class name contains the query, case ignored.
pub fn search_windows(query: &str, windows: &[WindowInfo]) -> (r: Vec<SearchResult>)
    ensures
        r.deep_view() == window_results(windows.deep_view(), query@),
{
    let ghost all = windows.deep_view();
    let ghost pred = |w: WindowInfoView| window_contains_text(w, query@);
    let ghost to_result = |w: WindowInfoView| window_result(w);
    let mut results: Vec<SearchResult> = Vec::new();
    let mut i: usize = 0;
    if query.is_empty() {
        while i < windows.len()
            invariant
                i <= windows.len(),
                all == windows.deep_view(),
                to_result == (|w: WindowInfoView| window_result(w)),
                results.deep_view() == all.take(i as int).map_values(to_result),
            decreases windows.len() - i,
        {
            let ghost before = results.deep_view();
            results.push(window_result_for(&windows[i]));
            assert(results.deep_view() =~= before.push(window_result(windows[i as int]@)));
            i += 1;
        }
        return results;
    }
    assert(all.take(0).filter(pred) =~= Seq::<WindowInfoView>::empty()) by {
        reveal(Seq::filter);
    }
    while i < windows.len()
        invariant
            i <= windows.len(),
            all == windows.deep_view(),
            pred == (|w: WindowInfoView| window_contains_text(w, query@)),
            to_result == (|w: WindowInfoView| window_result(w)),
            results.deep_view() == all.take(i as int).filter(pred).map_values(to_result),
        decreases windows.len() - i,
    {
        let window = &windows[i];
        let hit = window.contains_text(query);
        proof {
            assert(all.take(i + 1) =~= all.take(i as int).push(window@));
            all.take(i as int).lemma_filter_push(window@, pred);
        }
        if hit {
            let ghost before = results.deep_view();
            results.push(window_result_for(window));
            assert(results.deep_view() =~= before.push(window_result(window@)));
        }
        i += 1;
    }
    assert(all.take(i as int) =~= all);
    if results.len() > MAX_WINDOW_RESULTS {
        let ghost before = results.deep_view();
        results.truncate(MAX_WINDOW_RESULTS);
        assert(results.deep_view() =~= before.take(MAX_WINDOW_RESULTS as int));
    }
    results
}

/// The engine that knows the web search and the windows, and nothing else.
#[derive(Debug, Clone, Copy, PartialEq, Eq, Structural)]
pub struct DefaultSearchEngine;

impl DefaultSearchEngine {
    pub fn new() -> (r: Self) {
        DefaultSearchEngine
    }
}

impl SearchEngine for DefaultSearchEngine {
    fn search(&self, query: &str, mode: SearchMode, windows: &[WindowInfo]) -> (r: Vec<
        SearchResult,
    >)
        ensures
            r.deep_view() == default_results(query@, mode, windows.deep_view()),
    {
        match mode {
            SearchMode::Browser => {
                let mut results: Vec<SearchResult> = Vec::new();
                if !query.is_empty() {
                    results.push(google_result_for(query));
                } else {
                }
                results
            },
            SearchMode::Windows => search_windows(query, windows),
        }
    }

    fn is_window_search(&self, query: &str, mode: SearchMode) -> (r: bool)
        ensures
            r == (mode == SearchMode::Windows),
    {
        mode == SearchMode::Windows
    }
}

/// A search among windows never returns more than there are windows, and a
/// query that is not empty never returns more than
/// [`MAX_WINDOW_RESULTS`].
pub proof fn lemma_window_results_bounded(windows: Seq<WindowInfoView>, query: Seq<char>)
    ensures
        window_results(windows, query).len() <= windows.len(),
        query.len() > 0 ==> window_results(windows, query).len() <= MAX_WINDOW_RESULTS,
{
    windows.lemma_filter_len(|w: WindowInfoView| window_contains_text(w, query));
}

} // verus!
