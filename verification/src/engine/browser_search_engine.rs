//! The search engine of the launcher's browser mode: the web search, then
//! the bookmarks, then the recent visits; and the windows in window mode.

use vstd::prelude::*;
use vstd::string::StringExecFns;
use crate::clock::{current_millis, seconds_of};
use crate::data::browser_item::{BookmarkItem, BookmarkItemView, HistoryItem, HistoryItemView};
use crate::data::browser_provider::{
    BrowserDataError,
    BrowserDataProvider,
    CachedBrowserProvider,
    WEBKIT_EPOCH_OFFSET_SECS,
    is_bookmark_search_answer,
    is_history_search_answer,
};
use crate::engine::search_engine::{
    Action,
    ActionView,
    ResultType,
    SearchEngine,
    SearchMode,
    SearchResult,
    SearchResultView,
    google_result,
    google_result_for,
    search_windows,
    window_results,
};
use crate::engine::window_manager::WindowInfo;
use crate::text::{decimal, decimal_digits, i64_to_string, u64_to_string};

verus! {

/// The title under which a bookmark or a visit is listed: browser and
/// profile in brackets before the title where both are known, and the title
/// alone where they are not.
pub open spec fn sourced_title(
    title: Seq<char>,
    browser_name: Option<Seq<char>>,
    profile_name: Option<Seq<char>>,
) -> Seq<char> {
    match (browser_name, profile_name) {
        (Some(browser), Some(profile)) => "["@ + browser + " - "@ + profile + "] "@ + title,
        _ => title,
    }
}

/// The line under a bookmark: its URL, and its folder after a bar where it
/// has one.
pub open spec fn bookmark_description(item: BookmarkItemView) -> Seq<char> {
    match item.folder {
        Some(folder) => item.url + " | "@ + folder,
        None => item.url,
    }
}

/// The result that stands for a bookmark.
pub open spec fn bookmark_result(item: BookmarkItemView) -> SearchResultView {
    SearchResultView {
        title: sourced_title(item.title, item.browser_name, item.profile_name),
        description: bookmark_description(item),
        action: ActionView::OpenBookmark(item.url),
        window_info: None,
        result_type: ResultType::Bookmark,
    }
}

/// The whole seconds of a visit time, read as a number without a sign: the
/// microseconds are cut off towards zero, and a time before the browser's
/// first day then counts as the number that its sixty-four bits stand for.
pub open spec fn visit_seconds(last_visit_time: i64) -> int {
    if last_visit_time >= 0 {
        last_visit_time / 1000000
    } else {
        let back = (-last_visit_time) / 1000000;
        if back == 0 {
            0
        } else {
            0x1_0000_0000_0000_0000 - back
        }
    }
}

/// How long ago a stretch of seconds is, in the largest unit that fits.
pub open spec fn elapsed_text(elapsed: int) -> Seq<char> {
    if elapsed < 60 {
        "just now"@
    } else if elapsed < 3600 {
        decimal_digits((elapsed / 60) as nat) + " min ago"@
    } else if elapsed < 86400 {
        decimal_digits((elapsed / 3600) as nat) + " hours ago"@
    } else if elapsed < 604800 {
        decimal_digits((elapsed / 86400) as nat) + " days ago"@
    } else {
        decimal_digits((elapsed / 604800) as nat) + " weeks ago"@
    }
}

/// How long ago a visit was when the clock shows `now_secs`.  A visit time
/// not after the first day of 1970 is `unknown`, one after now is `future`.
pub open spec fn visit_age(last_visit_time: i64, now_secs: u64) -> Seq<char> {
    let seconds = visit_seconds(last_visit_time);
    if seconds > WEBKIT_EPOCH_OFFSET_SECS {
        let unix = seconds - WEBKIT_EPOCH_OFFSET_SECS;
        if unix <= now_secs {
            elapsed_text(now_secs - unix)
        } else {
            "future"@
        }
    } else {
        "unknown"@
    }
}

/// The line under a visit: its URL, how often it was visited and how long
/// ago.
pub open spec fn history_description(item: HistoryItemView, now_secs: u64) -> Seq<char> {
    item.url + " (visited "@ + decimal(item.visit_count as int) + " times, "@ + visit_age(
        item.last_visit_time,
        now_secs,
    ) + ")"@
}

/// The result that stands for a visit.
pub open spec fn history_result(item: HistoryItemView, now_secs: u64) -> SearchResultView {
    SearchResultView {
        title: sourced_title(item.title, item.browser_name, item.profile_name),
        description: history_description(item, now_secs),
        action: ActionView::OpenHistory(item.url),
        window_info: None,
        result_type: ResultType::History,
    }
}

/// The bookmarks of an answer; none when the answer is an error.
pub open spec fn found_bookmarks(answer: Result<Vec<BookmarkItem>, BrowserDataError>) -> Seq<
    BookmarkItemView,
> {
    match answer {
        Ok(items) => items.deep_view(),
        Err(_) => Seq::empty(),
    }
}

/// The visits of an answer; none when the answer is an error.
pub open spec fn found_history(answer: Result<Vec<HistoryItem>, BrowserDataError>) -> Seq<
    HistoryItemView,
> {
    match answer {
        Ok(items) => items.deep_view(),
        Err(_) => Seq::empty(),
    }
}

/// The results of browser mode for a query that is not empty: the web
/// search first, then every bookmark that was found, then every visit, each
/// group in the order in which it was found.
pub open spec fn browser_results(
    query: Seq<char>,
    bookmarks: Seq<BookmarkItemView>,
    history: Seq<HistoryItemView>,
    now_secs: u64,
) -> Seq<SearchResultView> {
    seq![google_result(query)] + bookmarks.map_values(|item: BookmarkItemView| bookmark_result(item))
        + history.map_values(|item: HistoryItemView| history_result(item, now_secs))
}

/// The title under which a bookmark or a visit is listed.
pub fn sourced_title_for(
    title: &String,
    browser_name: &Option<String>,
    profile_name: &Option<String>,
) -> (r: String)
    ensures
        r@ == sourced_title(title@, browser_name.deep_view(), profile_name.deep_view()),
{
    match (browser_name, profile_name) {
        (Some(browser), Some(profile)) => {
            let mut text = String::from_str("[");
            text.append(browser.as_str());
            text.append(" - ");
            text.append(profile.as_str());
            text.append("] ");
            text.append(title.as_str());
            text
        },
        _ => title.clone(),
    }
}

/// The result that stands for a bookmark.
pub fn bookmark_result_for(item: BookmarkItem) -> (r: SearchResult)
    ensures
        r@ == bookmark_result(item@),
{
    let title = sourced_title_for(&item.title, &item.browser_name, &item.profile_name);
    let mut description = item.url.clone();
    match &item.folder {
        Some(folder) => {
            description.append(" | ");
            description.append(folder.as_str());
        },
        None => {},
    }
    SearchResult {
        title,
        description,
        action: Action::OpenBookmark(item.url),
        window_info: None,
        result_type: ResultType::Bookmark,
    }
}

/// How long ago a stretch of seconds is.
pub fn elapsed_text_for(elapsed: u64) -> (r: String)
    ensures
        r@ == elapsed_text(elapsed as int),
{
    if elapsed < 60 {
        String::from_str("just now")
    } else if elapsed < 3600 {
        let mut text = u64_to_string(elapsed / 60);
        text.append(" min ago");
        text
    } else if elapsed < 86400 {
        let mut text = u64_to_string(elapsed / 3600);
        text.append(" hours ago");
        text
    } else if elapsed < 604800 {
        let mut text = u64_to_string(elapsed / 86400);
        text.append(" days ago");
        text
    } else {
        let mut text = u64_to_string(elapsed / 604800);
        text.append(" weeks ago");
        text
    }
}

/// How long ago a visit was when the clock shows `now_secs`.
pub fn visit_age_for(last_visit_time: i64, now_secs: u64) -> (r: String)
    ensures
        r@ == visit_age(last_visit_time, now_secs),
{
    let seconds: u64 = if last_visit_time >= 0 {
        (last_visit_time / 1000000) as u64
    } else {
        let back: u64 = ((-(last_visit_time + 1)) as u64 + 1) / 1000000;
        if back == 0 {
            0
        } else {
            u64::MAX - (back - 1)
        }
    };
    if seconds > WEBKIT_EPOCH_OFFSET_SECS {
        let unix = seconds - WEBKIT_EPOCH_OFFSET_SECS;
        if unix <= now_secs {
            elapsed_text_for(now_secs - unix)
        } else {
            String::from_str("future")
        }
    } else {
        String::from_str("unknown")
    }
}

/// The result that stands for a visit.
pub fn history_result_for(item: HistoryItem, now_secs: u64) -> (r: SearchResult)
    ensures
        r@ == history_result(item@, now_secs),
{
    let title = sourced_title_for(&item.title, &item.browser_name, &item.profile_name);
    let mut description = item.url.clone();
    description.append(" (visited ");
    let count = i64_to_string(item.visit_count as i64);
    description.append(count.as_str());
    description.append(" times, ");
    let age = visit_age_for(item.last_visit_time, now_secs);
    description.append(age.as_str());
    description.append(")");
    SearchResult {
        title,
        description,
        action: Action::OpenHistory(item.url),
        window_info: None,
        result_type: ResultType::History,
    }
}

/// Puts the results of browser mode together from what the provider
/// answered.  An answer that is an error contributes nothing.
pub fn compose_results(
    query: &str,
    bookmarks: Result<Vec<BookmarkItem>, BrowserDataError>,
    history: Result<Vec<HistoryItem>, BrowserDataError>,
    now_secs: u64,
) -> (r: Vec<SearchResult>)
    ensures
        r.deep_view() == browser_results(
            query@,
            found_bookmarks(bookmarks),
            found_history(history),
            now_secs,
        ),
{
    let ghost marks = found_bookmarks(bookmarks);
    let ghost visits = found_history(history);
    let ghost to_bookmark = |item: BookmarkItemView| bookmark_result(item);
    let ghost to_visit = |item: HistoryItemView| history_result(item, now_secs);
    let mut results: Vec<SearchResult> = Vec::new();
    results.push(google_result_for(query));
    match bookmarks {
        Ok(items) => {
            let ghost raw = items@;
            for item in it: items
                invariant
                    it.seq() == raw,
                    marks.len() == raw.len(),
                    forall|k: int| 0 <= k < raw.len() ==> marks[k] == (#[trigger] raw[k])@,
                    to_bookmark == (|item: BookmarkItemView| bookmark_result(item)),
                    results.deep_view() == seq![google_result(query@)] + marks.take(
                        it.index() as int,
                    ).map_values(to_bookmark),
            {
                let ghost before = results.deep_view();
                let ghost index = it.index() as int;
                results.push(bookmark_result_for(item));
                assert(results.deep_view() =~= before.push(bookmark_result(marks[index])));
            }
        },
        Err(_) => {
        },
    }
    let ghost head = seq![google_result(query@)] + marks.map_values(to_bookmark);
    match history {
        Ok(items) => {
            let ghost raw = items@;
            for item in it: items
                invariant
                    it.seq() == raw,
                    visits.len() == raw.len(),
                    forall|k: int| 0 <= k < raw.len() ==> visits[k] == (#[trigger] raw[k])@,
                    to_visit == (|item: HistoryItemView| history_result(item, now_secs)),
                    results.deep_view() == head + visits.take(it.index() as int).map_values(
                        to_visit,
                    ),
            {
                let ghost before = results.deep_view();
                let ghost index = it.index() as int;
                results.push(history_result_for(item, now_secs));
                assert(results.deep_view() =~= before.push(history_result(visits[index], now_secs)));
            }
        },
        Err(_) => {
        },
    }
    results
}

/// The provider that has nothing: it stands in where no browser's data can
/// be had.
#[derive(Debug, Clone, Copy, PartialEq, Eq, Structural)]
pub struct DummyBrowserProvider;

impl BrowserDataProvider for DummyBrowserProvider {
    fn get_bookmarks(&self) -> (r: Result<Vec<BookmarkItem>, BrowserDataError>)
        ensures
            r is Ok && r->Ok_0@.len() == 0,
    {
        Ok(Vec::new())
    }

    fn get_history(&self) -> (r: Result<Vec<HistoryItem>, BrowserDataError>)
        ensures
            r is Ok && r->Ok_0@.len() == 0,
    {
        Ok(Vec::new())
    }

    fn search_bookmarks(&self, query: &str) -> (r: Result<Vec<BookmarkItem>, BrowserDataError>)
        ensures
            r is Ok && r->Ok_0@.len() == 0,
    {
        Ok(Vec::new())
    }

    fn search_history(&self, query: &str) -> (r: Result<Vec<HistoryItem>, BrowserDataError>)
        ensures
            r is Ok && r->Ok_0@.len() == 0,
    {
        Ok(Vec::new())
    }
}

/// The engine of the launcher.  Its provider is any provider in a box,
/// unless the type says which.
pub struct BrowserSearchEngine<P: BrowserDataProvider + ?Sized = dyn BrowserDataProvider> {
    browser_provider: CachedBrowserProvider<P>,
}

impl BrowserSearchEngine {
    /// An engine without a browser's data: its browser mode knows the web
    /// search and nothing else.
    pub fn new() -> (r: Self)
        ensures
            r.provider()@.bookmarks is None,
            r.provider()@.history is None,
    {
        let nothing: Box<dyn BrowserDataProvider> = Box::new(DummyBrowserProvider);
        Self::with_provider(nothing)
    }
}

impl<P: BrowserDataProvider + ?Sized> BrowserSearchEngine<P> {
    /// The provider that the engine asks.
    pub closed spec fn provider(&self) -> CachedBrowserProvider<P> {
        self.browser_provider
    }

    /// An engine over the given provider.
    pub fn with_provider(provider: Box<P>) -> (r: Self)
        ensures
            r.provider().source() == &*provider,
            r.provider()@.bookmarks is None,
            r.provider()@.history is None,
    {
        BrowserSearchEngine { browser_provider: CachedBrowserProvider::new(provider) }
    }

    /// Makes the provider forget what it remembers.
    pub fn refresh_browser_data(&mut self)
        ensures
            final(self).provider().source() == old(self).provider().source(),
            final(self).provider()@.bookmarks is None,
            final(self).provider()@.history is None,
    {
        self.browser_provider.refresh();
    }

    /// The results for `query` in `mode` when the clock shows `now_secs`.
    ///
    /// In window mode they are the windows that the query selects.  In
    /// browser mode the empty query has no results; any other query has the
    /// web search, then the bookmarks and the visits that the provider finds
    /// for it.
    pub fn search_at(
        &self,
        query: &str,
        mode: SearchMode,
        windows: &[WindowInfo],
        now_secs: u64,
    ) -> (r: Vec<SearchResult>)
        ensures
            mode == SearchMode::Windows ==> r.deep_view() == window_results(
                windows.deep_view(),
                query@,
            ),
            mode == SearchMode::Browser && query@.len() == 0 ==> r.deep_view() == Seq::<
                SearchResultView,
            >::empty(),
            mode == SearchMode::Browser && query@.len() > 0 ==> exists|
                bookmarks: Result<Vec<BookmarkItem>, BrowserDataError>,
                history: Result<Vec<HistoryItem>, BrowserDataError>,
            |
                {
                    &&& #[trigger] is_bookmark_search_answer(
                        self.provider().source(),
                        query,
                        bookmarks,
                    )
                    &&& #[trigger] is_history_search_answer(
                        self.provider().source(),
                        query,
                        history,
                    )
                    &&& r.deep_view() == browser_results(
                        query@,
                        found_bookmarks(bookmarks),
                        found_history(history),
                        now_secs,
                    )
                },
    {
        match mode {
            SearchMode::Browser => {
                if query.is_empty() {
                    let results: Vec<SearchResult> = Vec::new();
                    results
                } else {
                    let bookmarks = self.browser_provider.search_bookmarks(query);
                    let history = self.browser_provider.search_history(query);
                    let ghost found = (bookmarks, history);
                    let results = compose_results(query, bookmarks, history, now_secs);
                    assert(is_bookmark_search_answer(self.provider().source(), query, found.0)
                        && is_history_search_answer(self.provider().source(), query, found.1)
                        && results.deep_view() == browser_results(
                        query@,
                        found_bookmarks(found.0),
                        found_history(found.1),
                        now_secs,
                    ));
                    results
                }
            },
            SearchMode::Windows => search_windows(query, windows),
        }
    }
}

impl<P: BrowserDataProvider + ?Sized> SearchEngine for BrowserSearchEngine<P> {
    /// The results for `query` in `mode` now: searches as
    /// [`search_at`](BrowserSearchEngine::search_at) does at the time that
    /// the clock shows.  The clock is read only when there are visits whose
    /// age is to be told.
    fn search(&self, query: &str, mode: SearchMode, windows: &[WindowInfo]) -> (r: Vec<
        SearchResult,
    >)
        ensures
            mode == SearchMode::Windows ==> r.deep_view() == window_results(
                windows.deep_view(),
                query@,
            ),
            mode == SearchMode::Browser && query@.len() == 0 ==> r.deep_view() == Seq::<
                SearchResultView,
            >::empty(),
            mode == SearchMode::Browser && query@.len() > 0 ==> exists|
                bookmarks: Result<Vec<BookmarkItem>, BrowserDataError>,
                history: Result<Vec<HistoryItem>, BrowserDataError>,
                now_secs: u64,
            |
                {
                    &&& #[trigger] is_bookmark_search_answer(
                        self.provider().source(),
                        query,
                        bookmarks,
                    )
                    &&& #[trigger] is_history_search_answer(
                        self.provider().source(),
                        query,
                        history,
                    )
                    &&& r.deep_view() == #[trigger] browser_results(
                        query@,
                        found_bookmarks(bookmarks),
                        found_history(history),
                        now_secs,
                    )
                },
    {
        match mode {
            SearchMode::Browser => {
                if query.is_empty() {
                    let results: Vec<SearchResult> = Vec::new();
                    results
                } else {
                    let bookmarks = self.browser_provider.search_bookmarks(query);
                    let history = self.browser_provider.search_history(query);
                    let has_visits = match &history {
                        Ok(visits) => visits.len() > 0,
                        Err(_) => false,
                    };
                    let now_secs = if has_visits {
                        seconds_of(current_millis())
                    } else {
                        0
                    };
                    let ghost found = (bookmarks, history);
                    let results = compose_results(query, bookmarks, history, now_secs);
                    assert(is_bookmark_search_answer(self.provider().source(), query, found.0)
                        && is_history_search_answer(self.provider().source(), query, found.1)
                        && results.deep_view() == browser_results(
                        query@,
                        found_bookmarks(found.0),
                        found_history(found.1),
                        now_secs,
                    ));
                    results
                }
            },
            SearchMode::Windows => search_windows(query, windows),
        }
    }

    fn is_window_search(&self, query: &str, mode: SearchMode) -> (r: bool)
        ensures
            r == (mode == SearchMode::Windows),
    {
        mode == SearchMode::Windows
    }
}

} // verus!
