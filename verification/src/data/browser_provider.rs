//! Where bookmarks and history come from.
//!
//! A browser keeps them in the directory of a profile: the bookmarks as a
//! tree in a file, the history in a database.  Reading either is the
//! program's business.  What is read is handed to the functions of this
//! module, which say which bookmarks and which visits a search is after.

use vstd::prelude::*;
use vstd::string::StringExecFns;
use crate::data::browser_item::{
    BookmarkItem,
    BookmarkItemView,
    ChromeBookmarks,
    HistoryItem,
    HistoryItemView,
    flattened,
};
use crate::text::{
    contains_ignore_case,
    contains_lowercase,
    decimal_digits,
    str_equal,
    to_lowercase,
    u64_to_string,
};

verus! {

/// The seconds between the first day of 1601, from which a browser counts,
/// and the first day of 1970, from which the clock counts.
pub const WEBKIT_EPOCH_OFFSET_SECS: u64 = 11644473600;

/// Two weeks, the age up to which a visit is looked at, in microseconds.
pub const HISTORY_WINDOW_MICROS: u64 = 1209600000000;

/// The most visits that one profile contributes to a search.
pub const HISTORY_LIMIT: u32 = 100;

/// Why a provider has no data to give.
#[derive(Debug)]
pub struct BrowserDataError {
    pub message: String,
}

/// A source of bookmarks and history.
pub trait BrowserDataProvider {
    /// Every bookmark.
    fn get_bookmarks(&self) -> Result<Vec<BookmarkItem>, BrowserDataError>;

    /// The recent visits.
    fn get_history(&self) -> Result<Vec<HistoryItem>, BrowserDataError>;

    /// The bookmarks that answer a query.
    fn search_bookmarks(&self, query: &str) -> Result<Vec<BookmarkItem>, BrowserDataError>;

    /// The recent visits that answer a query.
    fn search_history(&self, query: &str) -> Result<Vec<HistoryItem>, BrowserDataError>;
}

/// A profile of a browser.
#[derive(Debug)]
pub struct BrowserProfile {
    pub browser_name: String,
    pub profile_name: String,
    pub profile_path: String,
}

/// The content of a [`BrowserProfile`].
pub struct BrowserProfileView {
    pub browser_name: Seq<char>,
    pub profile_name: Seq<char>,
    pub profile_path: Seq<char>,
}

impl View for BrowserProfile {
    type V = BrowserProfileView;

    open spec fn view(&self) -> BrowserProfileView {
        BrowserProfileView {
            browser_name: self.browser_name@,
            profile_name: self.profile_name@,
            profile_path: self.profile_path@,
        }
    }
}

impl DeepView for BrowserProfile {
    type V = BrowserProfileView;

    open spec fn deep_view(&self) -> BrowserProfileView {
        self@
    }
}

impl Clone for BrowserProfile {
    fn clone(&self) -> (r: Self)
        ensures
            r == *self,
    {
        BrowserProfile {
            browser_name: self.browser_name.clone(),
            profile_name: self.profile_name.clone(),
            profile_path: self.profile_path.clone(),
        }
    }
}

/// Which browsers are looked at.
#[derive(Debug, Clone, Copy, PartialEq, Eq, Structural)]
pub struct BrowserConfig {
    pub enable_chrome: bool,
    pub enable_wavebox: bool,
}

/// What a setting says: `true` and `false` are understood, and nothing else.
pub open spec fn flag_of(text: Seq<char>) -> Option<bool> {
    if text == "true"@ {
        Some(true)
    } else if text == "false"@ {
        Some(false)
    } else {
        None
    }
}

/// The value of a switch: what its setting says, and the default where the
/// setting is missing or says nothing that is understood.
pub open spec fn switch_value(setting: Option<Seq<char>>, default: bool) -> bool {
    match setting {
        Some(text) => match flag_of(text) {
            Some(flag) => flag,
            None => default,
        },
        None => default,
    }
}

/// Reads a setting as a flag.
pub fn parse_flag(text: &str) -> (r: Option<bool>)
    ensures
        r == flag_of(text@),
{
    if str_equal(text, "true") {
        Some(true)
    } else if str_equal(text, "false") {
        Some(false)
    } else {
        None
    }
}

fn switch_of(setting: Option<&str>, default: bool) -> (r: bool)
    ensures
        r == switch_value(
            match setting {
                Some(t) => Some(t@),
                None => None,
            },
            default,
        ),
{
    match setting {
        Some(text) => match parse_flag(text) {
            Some(flag) => flag,
            None => default,
        },
        None => default,
    }
}

impl BrowserConfig {
    /// The configuration that the two settings ask for.  Chrome is looked
    /// at only when its setting says `true`; Wavebox is looked at unless its
    /// setting says `false`.
    pub fn from_settings(chrome: Option<&str>, wavebox: Option<&str>) -> (r: Self)
        ensures
            r.enable_chrome == switch_value(
                match chrome {
                    Some(t) => Some(t@),
                    None => None,
                },
                false,
            ),
            r.enable_wavebox == switch_value(
                match wavebox {
                    Some(t) => Some(t@),
                    None => None,
                },
                true,
            ),
    {
        BrowserConfig {
            enable_chrome: switch_of(chrome, false),
            enable_wavebox: switch_of(wavebox, true),
        }
    }
}

impl Default for BrowserConfig {
    /// The configuration without settings: Wavebox and not Chrome.
    fn default() -> (r: Self)
        ensures
            r == (BrowserConfig { enable_chrome: false, enable_wavebox: true }),
    {
        BrowserConfig { enable_chrome: false, enable_wavebox: true }
    }
}

/// The name of the profile numbered `index` among those that a browser's
/// directory is searched for: `Default` for zero, and `Profile` with the
/// number for the others.
pub open spec fn profile_name_at(index: nat) -> Seq<char> {
    if index == 0 {
        "Default"@
    } else {
        "Profile "@ + decimal_digits(index)
    }
}

/// The text that says where a bookmark comes from: browser, then profile.
pub open spec fn profile_label(browser: Seq<char>, profile: Seq<char>) -> Seq<char> {
    browser + " - "@ + profile
}

/// A bookmark with its browser and its profile written into it.
pub open spec fn labelled(item: BookmarkItemView, profile: BrowserProfileView) -> BookmarkItemView {
    BookmarkItemView {
        title: item.title,
        url: item.url,
        folder: item.folder,
        browser_name: Some(profile.browser_name),
        profile_name: Some(profile.profile_name),
    }
}

/// Whether a search is after a bookmark of a profile.  A bookmark without a
/// title is never wanted.  Without a query every other bookmark is; with a
/// query, those are in whose title or URL, or in the name of whose browser
/// or profile, the query occurs, case ignored.
pub open spec fn bookmark_wanted(
    item: BookmarkItemView,
    profile: BrowserProfileView,
    query: Option<Seq<char>>,
) -> bool {
    item.title.len() > 0 && match query {
        None => true,
        Some(q) => contains_ignore_case(item.title, q) || contains_ignore_case(item.url, q)
            || contains_ignore_case(profile.browser_name, q) || contains_ignore_case(
            profile.profile_name,
            q,
        ),
    }
}

/// The bookmarks of a list that a search is after, labelled with their
/// profile, in the order of the list.
pub open spec fn wanted_bookmarks(
    items: Seq<BookmarkItemView>,
    profile: BrowserProfileView,
    query: Option<Seq<char>>,
) -> Seq<BookmarkItemView> {
    items.map_values(|item: BookmarkItemView| labelled(item, profile)).filter(
        |item: BookmarkItemView| bookmark_wanted(item, profile, query),
    )
}

/// The bookmarks of a profile's file that a search is after: those of the
/// bookmark bar, then the others, each under the profile's label as its
/// outermost folder.
pub open spec fn profile_bookmarks(
    file: ChromeBookmarks,
    profile: BrowserProfileView,
    query: Option<Seq<char>>,
) -> Seq<BookmarkItemView> {
    let label = profile_label(profile.browser_name, profile.profile_name);
    wanted_bookmarks(flattened(file.roots.bookmark_bar, Some(label)), profile, query)
        + wanted_bookmarks(flattened(file.roots.other, Some(label)), profile, query)
}

/// The time before which a visit is too old to be looked at, in the
/// browser's count of microseconds, when the clock shows `now_secs`: two
/// weeks before now.  A clock so far ahead that the count leaves the range
/// of numbers gives the largest number.
pub open spec fn history_cutoff(now_secs: u64) -> u64 {
    let micros = (now_secs + WEBKIT_EPOCH_OFFSET_SECS) * 1000000 - HISTORY_WINDOW_MICROS;
    if micros > u64::MAX {
        u64::MAX
    } else {
        micros as u64
    }
}

/// The pattern that finds a query anywhere in a text.
pub open spec fn like_pattern(query: Seq<char>) -> Seq<char> {
    "%"@ + query + "%"@
}

/// The values that go with the history query: the cutoff, and the pattern
/// if there is a query.
pub open spec fn history_params(query: Option<Seq<char>>, now_secs: u64) -> Seq<Seq<char>> {
    match query {
        Some(q) => seq![decimal_digits(history_cutoff(now_secs) as nat), like_pattern(q)],
        None => seq![decimal_digits(history_cutoff(now_secs) as nat)],
    }
}

/// A visit as the history database gives it.
#[derive(Debug)]
pub struct HistoryRow {
    pub url: String,
    pub title: String,
    pub visit_count: i32,
    pub last_visit_time: i64,
}

/// The content of a [`HistoryRow`].
pub struct HistoryRowView {
    pub url: Seq<char>,
    pub title: Seq<char>,
    pub visit_count: i32,
    pub last_visit_time: i64,
}

impl View for HistoryRow {
    type V = HistoryRowView;

    open spec fn view(&self) -> HistoryRowView {
        HistoryRowView {
            url: self.url@,
            title: self.title@,
            visit_count: self.visit_count,
            last_visit_time: self.last_visit_time,
        }
    }
}

impl DeepView for HistoryRow {
    type V = HistoryRowView;

    open spec fn deep_view(&self) -> HistoryRowView {
        self@
    }
}

/// The history entry that a row of a profile's database stands for.
pub open spec fn history_entry(row: HistoryRowView, profile: BrowserProfileView) -> HistoryItemView {
    HistoryItemView {
        title: row.title,
        url: row.url,
        visit_count: row.visit_count,
        last_visit_time: row.last_visit_time,
        browser_name: Some(profile.browser_name),
        profile_name: Some(profile.profile_name),
    }
}

/// The provider for the profiles of Chrome and of browsers that keep their
/// data as Chrome does.
#[derive(Debug)]
pub struct ChromeBrowserProvider {
    profiles: Vec<BrowserProfile>,
    config: BrowserConfig,
}

/// The content of a [`ChromeBrowserProvider`].
pub struct ChromeBrowserProviderView {
    pub profiles: Seq<BrowserProfileView>,
    pub config: BrowserConfig,
}

impl View for ChromeBrowserProvider {
    type V = ChromeBrowserProviderView;

    closed spec fn view(&self) -> ChromeBrowserProviderView {
        ChromeBrowserProviderView { profiles: self.profiles.deep_view(), config: self.config }
    }
}

impl ChromeBrowserProvider {
    /// A provider with the configuration that needs no settings and no
    /// profile yet.
    pub fn new() -> (r: Result<Self, BrowserDataError>)
        ensures
            r is Ok,
            r->Ok_0@.config == (BrowserConfig { enable_chrome: false, enable_wavebox: true }),
            r->Ok_0@.profiles == Seq::<BrowserProfileView>::empty(),
    {
        Self::with_config(BrowserConfig::default())
    }

    /// A provider with the given configuration and no profile yet.
    /// Profiles are added as they are found.
    pub fn with_config(config: BrowserConfig) -> (r: Result<Self, BrowserDataError>)
        ensures
            r is Ok,
            r->Ok_0@.config == config,
            r->Ok_0@.profiles == Seq::<BrowserProfileView>::empty(),
    {
        let provider = ChromeBrowserProvider { profiles: Vec::new(), config };
        Ok(provider)
    }

    /// Adds a profile that was found.
    pub fn add_profile(&mut self, profile: BrowserProfile)
        ensures
            final(self)@.config == old(self)@.config,
            final(self)@.profiles == old(self)@.profiles.push(profile@),
    {
        self.profiles.push(profile);
    }

    /// The configuration.
    pub fn config(&self) -> (r: BrowserConfig)
        ensures
            r == self@.config,
    {
        self.config
    }

    /// Copies of the profiles, in the order in which they were added.
    pub fn profiles(&self) -> (r: Vec<BrowserProfile>)
        ensures
            r.deep_view() == self@.profiles,
    {
        let r = self.profiles.clone();
        r
    }

    /// The names of the profiles that a browser's directory is searched
    /// for: `Default`, then `Profile 1` to `Profile 9`.
    pub fn candidate_profile_names() -> (r: Vec<String>)
        ensures
            r@.len() == 10,
            forall|i: int| 0 <= i < 10 ==> (#[trigger] r@[i])@ == profile_name_at(i as nat),
    {
        let mut names: Vec<String> = Vec::new();
        names.push(String::from_str("Default"));
        let mut i: u64 = 1;
        while i < 10
            invariant
                1 <= i <= 10,
                names@.len() == i,
                forall|k: int| 0 <= k < i ==> (#[trigger] names@[k])@ == profile_name_at(k as nat),
            decreases 10 - i,
        {
            let mut name = String::from_str("Profile ");
            let number = u64_to_string(i);
            name.append(number.as_str());
            names.push(name);
            i += 1;
        }
        names
    }

    /// Picks the bookmarks that a search is after from a list, labels them
    /// with the profile and moves them to the end of `found`.
    pub fn keep_wanted(
        items: Vec<BookmarkItem>,
        profile: &BrowserProfile,
        query: Option<&str>,
        found: &mut Vec<BookmarkItem>,
    )
        ensures
            final(found).deep_view() == old(found).deep_view() + wanted_bookmarks(
                items.deep_view(),
                profile@,
                match query {
                    Some(q) => Some(q@),
                    None => None,
                },
            ),
    {
        let ghost q = match query {
            Some(q) => Some(q@),
            None => None,
        };
        let ghost start = found.deep_view();
        let ghost raw = items@;
        let ghost all = items.deep_view();
        let ghost label = |item: BookmarkItemView| labelled(item, profile@);
        let ghost wanted = |item: BookmarkItemView| bookmark_wanted(item, profile@, q);
        assert(all.take(0).map_values(label).filter(wanted) =~= Seq::<BookmarkItemView>::empty())
            by {
            reveal(Seq::filter);
        }
        for item in it: items
            invariant
                it.seq() == raw,
                all.len() == raw.len(),
                forall|k: int| 0 <= k < raw.len() ==> all[k] == (#[trigger] raw[k])@,
                label == (|item: BookmarkItemView| labelled(item, profile@)),
                wanted == (|item: BookmarkItemView| bookmark_wanted(item, profile@, q)),
                q == (match query {
                    Some(q) => Some(q@),
                    None => None,
                }),
                found.deep_view() == start + all.take(it.index() as int).map_values(label).filter(
                    wanted,
                ),
        {
            let ghost index = it.index() as int;
            let ghost before = found.deep_view();
            let mut bookmark = item;
            bookmark.browser_name = Some(profile.browser_name.clone());
            bookmark.profile_name = Some(profile.profile_name.clone());
            proof {
                let done = all.take(index).map_values(label);
                assert(all.take(index + 1).map_values(label) =~= done.push(bookmark@));
                done.lemma_filter_push(bookmark@, wanted);
            }
            let keep = if bookmark.title.as_str().is_empty() {
                false
            } else {
                match query {
                    Some(text) => {
                        let lower = to_lowercase(text);
                        contains_lowercase(bookmark.title.as_str(), lower.as_str())
                            || contains_lowercase(bookmark.url.as_str(), lower.as_str())
                            || contains_lowercase(profile.browser_name.as_str(), lower.as_str())
                            || contains_lowercase(profile.profile_name.as_str(), lower.as_str())
                    },
                    None => true,
                }
            };
            if keep {
                found.push(bookmark);
                assert(found.deep_view() =~= before.push(bookmark@));
            }
        }
        assert(all.take(raw.len() as int) =~= all);
    }

    /// The bookmarks of a profile's file that a search is after.
    pub fn bookmarks_of_profile(
        file: &ChromeBookmarks,
        profile: &BrowserProfile,
        query: Option<&str>,
    ) -> (r: Vec<BookmarkItem>)
        ensures
            r.deep_view() == profile_bookmarks(
                *file,
                profile@,
                match query {
                    Some(q) => Some(q@),
                    None => None,
                },
            ),
    {
        let mut label = profile.browser_name.clone();
        label.append(" - ");
        label.append(profile.profile_name.as_str());
        let mut found: Vec<BookmarkItem> = Vec::new();
        let bar = file.roots.bookmark_bar.flatten(Some(label.as_str()));
        Self::keep_wanted(bar, profile, query, &mut found);
        let other = file.roots.other.flatten(Some(label.as_str()));
        Self::keep_wanted(other, profile, query, &mut found);
        found
    }

    /// The time before which a visit is too old to be looked at, when the
    /// clock shows `now_secs` seconds.
    pub fn history_cutoff_at(now_secs: u64) -> (r: u64)
        ensures
            r == history_cutoff(now_secs),
    {
        let micros: u128 = (now_secs as u128 + WEBKIT_EPOCH_OFFSET_SECS as u128) * 1000000
            - HISTORY_WINDOW_MICROS as u128;
        if micros > u64::MAX as u128 {
            u64::MAX
        } else {
            micros as u64
        }
    }

    /// The query that finds a profile's recent visits in its database: the
    /// visits with a title that are not older than the first value, and,
    /// when there is a second value, whose title or URL is like it; the most
    /// visited first, the most recent first among equals, and no more than
    /// [`HISTORY_LIMIT`].
    pub fn history_query(has_query: bool) -> (r: &'static str)
        ensures
            r@ == (if has_query {
                "SELECT url, title, visit_count, last_visit_time FROM urls WHERE title IS NOT NULL AND title != '' AND last_visit_time > ?1 AND (LOWER(title) LIKE LOWER(?2) OR LOWER(url) LIKE LOWER(?2)) ORDER BY visit_count DESC, last_visit_time DESC LIMIT 100"@
            } else {
                "SELECT url, title, visit_count, last_visit_time FROM urls WHERE title IS NOT NULL AND title != '' AND last_visit_time > ?1 ORDER BY visit_count DESC, last_visit_time DESC LIMIT 100"@
            }),
    {
        if has_query {
            "SELECT url, title, visit_count, last_visit_time FROM urls WHERE title IS NOT NULL AND title != '' AND last_visit_time > ?1 AND (LOWER(title) LIKE LOWER(?2) OR LOWER(url) LIKE LOWER(?2)) ORDER BY visit_count DESC, last_visit_time DESC LIMIT 100"
        } else {
            "SELECT url, title, visit_count, last_visit_time FROM urls WHERE title IS NOT NULL AND title != '' AND last_visit_time > ?1 ORDER BY visit_count DESC, last_visit_time DESC LIMIT 100"
        }
    }

    /// The values that go with the history query.
    pub fn history_params_at(query: Option<&str>, now_secs: u64) -> (r: Vec<String>)
        ensures
            r.deep_view() == history_params(
                match query {
                    Some(q) => Some(q@),
                    None => None,
                },
                now_secs,
            ),
    {
        let mut params: Vec<String> = Vec::new();
        params.push(u64_to_string(Self::history_cutoff_at(now_secs)));
        match query {
            Some(q) => {
                let mut pattern = String::from_str("%");
                pattern.append(q);
                pattern.append("%");
                params.push(pattern);
            },
            None => {
            },
        }
        params
    }

    /// The history entries that the rows of a profile's database stand for,
    /// row by row and in the same order.
    pub fn history_of_profile(rows: Vec<HistoryRow>, profile: &BrowserProfile) -> (r: Vec<
        HistoryItem,
    >)
        ensures
            r.deep_view() == rows.deep_view().map_values(
                |row: HistoryRowView| history_entry(row, profile@),
            ),
    {
        let ghost raw = rows@;
        let ghost all = rows.deep_view();
        let mut out: Vec<HistoryItem> = Vec::new();
        for row in it: rows
            invariant
                it.seq() == raw,
                all.len() == raw.len(),
                forall|k: int| 0 <= k < raw.len() ==> all[k] == (#[trigger] raw[k])@,
                out.len() == it.index(),
                forall|k: int|
                    0 <= k < out.len() ==> (#[trigger] out[k])@ == history_entry(all[k], profile@),
        {
            out.push(
                HistoryItem {
                    title: row.title,
                    url: row.url,
                    visit_count: row.visit_count,
                    last_visit_time: row.last_visit_time,
                    browser_name: Some(profile.browser_name.clone()),
                    profile_name: Some(profile.profile_name.clone()),
                },
            );
        }
        out
    }
}

/// What a caching provider remembers.
pub struct CachedBrowserProviderView {
    pub bookmarks: Option<Seq<BookmarkItemView>>,
    pub history: Option<Seq<HistoryItemView>>,
}

/// A provider that asks another provider and remembers what it was given.
/// The other provider is any provider in a box, unless the type says which.
pub struct CachedBrowserProvider<P: BrowserDataProvider + ?Sized = dyn BrowserDataProvider> {
    inner: Box<P>,
    bookmarks_cache: Option<Vec<BookmarkItem>>,
    history_cache: Option<Vec<HistoryItem>>,
}

impl<P: BrowserDataProvider + ?Sized> View for CachedBrowserProvider<P> {
    type V = CachedBrowserProviderView;

    closed spec fn view(&self) -> CachedBrowserProviderView {
        CachedBrowserProviderView {
            bookmarks: self.bookmarks_cache.deep_view(),
            history: self.history_cache.deep_view(),
        }
    }
}

/// That `answer` is what a provider gives when it is asked for every
/// bookmark.
pub open spec fn is_bookmarks_answer<P: BrowserDataProvider + ?Sized>(
    provider: &P,
    answer: Result<Vec<BookmarkItem>, BrowserDataError>,
) -> bool {
    call_ensures(P::get_bookmarks, (provider,), answer)
}

/// That `answer` is what a provider gives when it is asked for the recent
/// visits.
pub open spec fn is_history_answer<P: BrowserDataProvider + ?Sized>(
    provider: &P,
    answer: Result<Vec<HistoryItem>, BrowserDataError>,
) -> bool {
    call_ensures(P::get_history, (provider,), answer)
}

/// That `answer` is what a provider gives when it is asked for the
/// bookmarks that answer `query`.
pub open spec fn is_bookmark_search_answer<P: BrowserDataProvider + ?Sized>(
    provider: &P,
    query: &str,
    answer: Result<Vec<BookmarkItem>, BrowserDataError>,
) -> bool {
    call_ensures(P::search_bookmarks, (provider, query), answer)
}

/// That `answer` is what a provider gives when it is asked for the visits
/// that answer `query`.
pub open spec fn is_history_search_answer<P: BrowserDataProvider + ?Sized>(
    provider: &P,
    query: &str,
    answer: Result<Vec<HistoryItem>, BrowserDataError>,
) -> bool {
    call_ensures(P::search_history, (provider, query), answer)
}

/// Copies of bookmarks, item by item.
pub fn clone_bookmarks(items: &Vec<BookmarkItem>) -> (r: Vec<BookmarkItem>)
    ensures
        r@ == items@,
        r.deep_view() == items.deep_view(),
{
    let r = items.clone();
    r
}

/// Copies of history entries, item by item.
pub fn clone_history(items: &Vec<HistoryItem>) -> (r: Vec<HistoryItem>)
    ensures
        r@ == items@,
        r.deep_view() == items.deep_view(),
{
    let r = items.clone();
    r
}

impl<P: BrowserDataProvider + ?Sized> CachedBrowserProvider<P> {
    /// The provider that is asked.
    pub closed spec fn source(&self) -> &P {
        &*self.inner
    }

    /// A caching provider that remembers nothing yet.
    pub fn new(provider: Box<P>) -> (r: Self)
        ensures
            r.source() == &*provider,
            r@.bookmarks is None,
            r@.history is None,
    {
        CachedBrowserProvider { inner: provider, bookmarks_cache: None, history_cache: None }
    }

    /// Forgets what was remembered.
    pub fn refresh(&mut self)
        ensures
            final(self).source() == old(self).source(),
            final(self)@.bookmarks is None,
            final(self)@.history is None,
    {
        self.bookmarks_cache = None;
        self.history_cache = None;
    }

    /// Every bookmark: what is remembered, if anything is; and otherwise
    /// what the other provider gives, which is remembered from then on if it
    /// is no error.
    pub fn load_bookmarks(&mut self) -> (r: Result<Vec<BookmarkItem>, BrowserDataError>)
        ensures
            final(self).source() == old(self).source(),
            final(self)@.history == old(self)@.history,
            match old(self)@.bookmarks {
                Some(remembered) => r is Ok && r->Ok_0.deep_view() == remembered && final(self)@.bookmarks == Some(remembered),
                None => is_bookmarks_answer(old(self).source(), r) && final(self)@.bookmarks
                    == (match r {
                    Ok(items) => Some(items.deep_view()),
                    Err(_) => None,
                }),
            },
    {
        match &self.bookmarks_cache {
            Some(remembered) => {
                return Ok(clone_bookmarks(remembered));
            },
            None => {},
        }
        let answer = self.inner.get_bookmarks();
        match &answer {
            Ok(items) => {
                self.bookmarks_cache = Some(clone_bookmarks(items));
            },
            Err(_) => {},
        }
        answer
    }

    /// The recent visits: what is remembered, if anything is; and otherwise
    /// what the other provider gives, which is remembered from then on if it
    /// is no error.
    pub fn load_history(&mut self) -> (r: Result<Vec<HistoryItem>, BrowserDataError>)
        ensures
            final(self).source() == old(self).source(),
            final(self)@.bookmarks == old(self)@.bookmarks,
            match old(self)@.history {
                Some(remembered) => r is Ok && r->Ok_0.deep_view() == remembered && final(self)@.history == Some(remembered),
                None => is_history_answer(old(self).source(), r) && final(self)@.history == (
                match r {
                    Ok(items) => Some(items.deep_view()),
                    Err(_) => None,
                }),
            },
    {
        match &self.history_cache {
            Some(remembered) => {
                return Ok(clone_history(remembered));
            },
            None => {},
        }
        let answer = self.inner.get_history();
        match &answer {
            Ok(items) => {
                self.history_cache = Some(clone_history(items));
            },
            Err(_) => {},
        }
        answer
    }
}

impl<P: BrowserDataProvider + ?Sized> BrowserDataProvider for CachedBrowserProvider<P> {
    /// Every bookmark: what is remembered, if anything is, and otherwise
    /// what the other provider gives.  Nothing new is remembered; for that
    /// there is [`load_bookmarks`](CachedBrowserProvider::load_bookmarks).
    fn get_bookmarks(&self) -> (r: Result<Vec<BookmarkItem>, BrowserDataError>)
        ensures
            match self@.bookmarks {
                Some(remembered) => r is Ok && r->Ok_0.deep_view() == remembered,
                None => is_bookmarks_answer(self.source(), r),
            },
    {
        match &self.bookmarks_cache {
            Some(remembered) => Ok(clone_bookmarks(remembered)),
            None => self.inner.get_bookmarks(),
        }
    }

    /// The recent visits: what is remembered, if anything is, and otherwise
    /// what the other provider gives.  Nothing new is remembered; for that
    /// there is [`load_history`](CachedBrowserProvider::load_history).
    fn get_history(&self) -> (r: Result<Vec<HistoryItem>, BrowserDataError>)
        ensures
            match self@.history {
                Some(remembered) => r is Ok && r->Ok_0.deep_view() == remembered,
                None => is_history_answer(self.source(), r),
            },
    {
        match &self.history_cache {
            Some(remembered) => Ok(clone_history(remembered)),
            None => self.inner.get_history(),
        }
    }

    /// A search goes to the other provider; what is remembered plays no
    /// part in it.
    fn search_bookmarks(&self, query: &str) -> (r: Result<Vec<BookmarkItem>, BrowserDataError>)
        ensures
            is_bookmark_search_answer(self.source(), query, r),
    {
        self.inner.search_bookmarks(query)
    }

    /// A search goes to the other provider; what is remembered plays no
    /// part in it.
    fn search_history(&self, query: &str) -> (r: Result<Vec<HistoryItem>, BrowserDataError>)
        ensures
            is_history_search_answer(self.source(), query, r),
    {
        self.inner.search_history(query)
    }
}

} // verus!
