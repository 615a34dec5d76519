//! The launcher's core: a search engine, a window manager and the window
//! list that was last read from it.

use vstd::prelude::*;
use vstd::string::StringExecFns;
use vstd::utf8::encode_utf8;
use std::sync::Arc;
use crate::engine::search_engine::{Action, ActionView, SearchEngine, SearchMode, SearchResult};
use crate::engine::window_manager::{WindowInfo, WindowInfoView, WindowManager};

verus! {

/// Whether a byte stands for itself in a URL: a letter or digit of ASCII, or
/// one of `-`, `.`, `_` and `~`.
pub open spec fn is_unreserved(byte: u8) -> bool {
    (0x30 <= byte <= 0x39) || (0x41 <= byte <= 0x5a) || (0x61 <= byte <= 0x7a) || byte == 0x2d
        || byte == 0x2e || byte == 0x5f || byte == 0x7e
}

/// The upper-case hexadecimal digit for a value below sixteen.
pub open spec fn hex_digit(value: u8) -> char {
    if value < 10 {
        (0x30 + value) as char
    } else {
        (0x41 + value - 10) as char
    }
}

/// A byte as it appears in a URL: itself when it is unreserved, and
/// otherwise a percent sign and its two hexadecimal digits.
pub open spec fn percent_encoded_byte(byte: u8) -> Seq<char> {
    if is_unreserved(byte) {
        seq![byte as char]
    } else {
        seq!['%', hex_digit(byte / 16), hex_digit(byte % 16)]
    }
}

/// A run of bytes as it appears in a URL, byte by byte.
pub open spec fn percent_encoded(bytes: Seq<u8>) -> Seq<char>
    decreases bytes.len(),
{
    if bytes.len() == 0 {
        Seq::empty()
    } else {
        percent_encoded(bytes.drop_last()) + percent_encoded_byte(bytes.last())
    }
}

/// The address of the web search for a query: the query goes into the URL
/// in UTF-8, percent-encoded.
pub open spec fn google_search_url(query: Seq<char>) -> Seq<char> {
    "https://www.google.com/search?q="@ + percent_encoded(encode_utf8(query))
}

/// The URL that an action opens; `None` for an action that opens none.
pub open spec fn url_to_open(action: ActionView) -> Option<Seq<char>> {
    match action {
        ActionView::SwitchWindow(_) => None,
        ActionView::GoogleSearch(query) => Some(google_search_url(query)),
        ActionView::OpenBookmark(url) => Some(url),
        ActionView::OpenHistory(url) => Some(url),
    }
}

/// Wraps `urlencoding::encode`.  The contract claims what the crate
/// documents: every byte of the text's UTF-8 form is kept when it is an
/// ASCII letter or digit or one of `-`, `.`, `_`, `~`, and is otherwise
/// replaced by `%` and its two upper-case hexadecimal digits.
#[verifier::external_body]
fn url_encode(text: &str) -> (r: String)
    ensures
        r@ == percent_encoded(encode_utf8(text@)),
{
    urlencoding::encode(text).into_owned()
}

/// The address of the web search for a query.
pub fn google_search_url_for(query: &str) -> (r: String)
    ensures
        r@ == google_search_url(query@),
{
    let mut url = String::from_str("https://www.google.com/search?q=");
    let encoded = url_encode(query);
    url.append(encoded.as_str());
    url
}

/// The URL that an action opens, if it opens one.
pub fn action_url(action: &Action) -> (r: Option<String>)
    ensures
        r.deep_view() == url_to_open(action@),
{
    match action {
        Action::SwitchWindow(_) => None,
        Action::GoogleSearch(query) => Some(google_search_url_for(query.as_str())),
        Action::OpenBookmark(url) => Some(url.clone()),
        Action::OpenHistory(url) => Some(url.clone()),
    }
}

/// The launcher's core.
pub struct LauncherCore<S: SearchEngine, W: WindowManager> {
    search_engine: S,
    window_manager: Arc<W>,
    cached_windows: Vec<WindowInfo>,
}

impl<S: SearchEngine, W: WindowManager> LauncherCore<S, W> {
    /// The content of the window list that was last read from the window
    /// manager.
    pub open spec fn cached(&self) -> Seq<WindowInfoView> {
        self.cached_windows().deep_view()
    }

    /// The cached window list as the window manager returned it.
    pub closed spec fn cached_windows(&self) -> Vec<WindowInfo> {
        self.cached_windows
    }

    /// The search engine.
    pub closed spec fn engine(&self) -> S {
        self.search_engine
    }

    /// The window manager.
    pub closed spec fn manager(&self) -> W {
        *self.window_manager
    }

    /// A core over the given engine and window manager, with the window
    /// list read once.
    pub fn new(search_engine: S, window_manager: Arc<W>) -> (r: Self)
        ensures
            r.engine() == search_engine,
            r.manager() == *window_manager,
            call_ensures(W::enumerate_windows, (&*window_manager,), r.cached_windows()),
    {
        let mut core = LauncherCore { search_engine, window_manager, cached_windows: Vec::new() };
        core.refresh_windows();
        core
    }

    /// Reads the window list anew: the cached list becomes what the window
    /// manager returns when it is asked now.
    pub fn refresh_windows(&mut self)
        ensures
            final(self).engine() == old(self).engine(),
            final(self).manager() == old(self).manager(),
            call_ensures(
                W::enumerate_windows,
                (&old(self).manager(),),
                final(self).cached_windows(),
            ),
    {
        self.cached_windows = self.window_manager.enumerate_windows();
    }

    /// That `results` is what the engine answers when it is asked with the
    /// query, the mode and the cached window list.
    pub open spec fn is_search_answer(
        &self,
        query: &str,
        mode: SearchMode,
        results: Vec<SearchResult>,
    ) -> bool {
        exists|windows: &[WindowInfo]|
            windows@ == self.cached_windows()@ && #[trigger] call_ensures(
                S::search,
                (&self.engine(), query, mode, windows),
                results,
            )
    }

    /// The results of `query` in `mode`: what the engine returns when it is
    /// asked with the query, the mode and the cached window list.
    pub fn search(&self, query: &str, mode: SearchMode) -> (r: Vec<SearchResult>)
        ensures
            self.is_search_answer(query, mode, r),
    {
        let windows = self.cached_windows.as_slice();
        let results = self.search_engine.search(query, mode, windows);
        results
    }

    /// Carries out the part of an action that the core can carry out, and
    /// returns the rest: a switch to a window is handed to the window
    /// manager, and for every other action the URL to open is returned.
    pub fn execute_action(&self, action: &Action) -> (r: Option<String>)
        ensures
            r.deep_view() == url_to_open(action@),
    {
        match action {
            Action::SwitchWindow(hwnd) => {
                self.window_manager.switch_to_window(*hwnd);
                None
            },
            _ => action_url(action),
        }
    }

    /// The cached window list.
    pub fn get_cached_windows(&self) -> (r: &[WindowInfo])
        ensures
            r@ == self.cached_windows()@,
            r.deep_view() == self.cached(),
    {
        let r = self.cached_windows.as_slice();
        r
    }
}

/// An unreserved byte is written as itself, and any other byte as three
/// characters that begin with a percent sign; so a text of letters and
/// digits goes into a URL unchanged.
pub proof fn lemma_percent_encoded_byte(byte: u8)
    ensures
        is_unreserved(byte) ==> percent_encoded_byte(byte) == seq![byte as char],
        !is_unreserved(byte) ==> percent_encoded_byte(byte).len() == 3 && percent_encoded_byte(
            byte,
        )[0] == '%',
{
}

} // verus!
