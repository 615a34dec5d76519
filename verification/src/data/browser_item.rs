//! Bookmarks and history entries, and the tree in which a browser keeps its
//! bookmarks.

use vstd::prelude::*;
use vstd::string::StringExecFns;
use crate::filter::search_filter::Searchable;
use crate::text::str_equal;

verus! {

/// A bookmark.
#[derive(Debug)]
pub struct BookmarkItem {
    pub title: String,
    pub url: String,
    /// The folders above the bookmark, outermost first, joined by ` > `.
    pub folder: Option<String>,
    pub browser_name: Option<String>,
    pub profile_name: Option<String>,
}

/// The content of a [`BookmarkItem`].
pub struct BookmarkItemView {
    pub title: Seq<char>,
    pub url: Seq<char>,
    pub folder: Option<Seq<char>>,
    pub browser_name: Option<Seq<char>>,
    pub profile_name: Option<Seq<char>>,
}

impl View for BookmarkItem {
    type V = BookmarkItemView;

    open spec fn view(&self) -> BookmarkItemView {
        BookmarkItemView {
            title: self.title@,
            url: self.url@,
            folder: self.folder.deep_view(),
            browser_name: self.browser_name.deep_view(),
            profile_name: self.profile_name.deep_view(),
        }
    }
}

impl DeepView for BookmarkItem {
    type V = BookmarkItemView;

    open spec fn deep_view(&self) -> BookmarkItemView {
        self@
    }
}

/// A copy of a text that may be missing.
pub fn clone_text(text: &Option<String>) -> (r: Option<String>)
    ensures
        r == *text,
{
    match text {
        Some(t) => Some(t.clone()),
        None => None,
    }
}

impl Clone for BookmarkItem {
    fn clone(&self) -> (r: Self)
        ensures
            r == *self,
    {
        BookmarkItem {
            title: self.title.clone(),
            url: self.url.clone(),
            folder: clone_text(&self.folder),
            browser_name: clone_text(&self.browser_name),
            profile_name: clone_text(&self.profile_name),
        }
    }
}

/// An entry of the browsing history.
#[derive(Debug)]
pub struct HistoryItem {
    pub title: String,
    pub url: String,
    pub visit_count: i32,
    /// The time of the last visit, in microseconds since the first day of
    /// the year 1601.
    pub last_visit_time: i64,
    pub browser_name: Option<String>,
    pub profile_name: Option<String>,
}

/// The content of a [`HistoryItem`].
pub struct HistoryItemView {
    pub title: Seq<char>,
    pub url: Seq<char>,
    pub visit_count: i32,
    pub last_visit_time: i64,
    pub browser_name: Option<Seq<char>>,
    pub profile_name: Option<Seq<char>>,
}

impl View for HistoryItem {
    type V = HistoryItemView;

    open spec fn view(&self) -> HistoryItemView {
        HistoryItemView {
            title: self.title@,
            url: self.url@,
            visit_count: self.visit_count,
            last_visit_time: self.last_visit_time,
            browser_name: self.browser_name.deep_view(),
            profile_name: self.profile_name.deep_view(),
        }
    }
}

impl DeepView for HistoryItem {
    type V = HistoryItemView;

    open spec fn deep_view(&self) -> HistoryItemView {
        self@
    }
}

impl Clone for HistoryItem {
    fn clone(&self) -> (r: Self)
        ensures
            r == *self,
    {
        HistoryItem {
            title: self.title.clone(),
            url: self.url.clone(),
            visit_count: self.visit_count,
            last_visit_time: self.last_visit_time,
            browser_name: clone_text(&self.browser_name),
            profile_name: clone_text(&self.profile_name),
        }
    }
}

/// The fields by which a bookmark or a history entry is searched: title and
/// URL, then the browser and the profile where they are known.
pub open spec fn browser_fields(
    title: Seq<char>,
    url: Seq<char>,
    browser_name: Option<Seq<char>>,
    profile_name: Option<Seq<char>>,
) -> Seq<(Seq<char>, Seq<char>)> {
    seq![("title"@, title), ("url"@, url)] + (match browser_name {
        Some(browser) => seq![("browser"@, browser)],
        None => Seq::empty(),
    }) + (match profile_name {
        Some(profile) => seq![("profile"@, profile)],
        None => Seq::empty(),
    })
}

fn browser_fields_of<'a>(
    title: &'a String,
    url: &'a String,
    browser_name: &'a Option<String>,
    profile_name: &'a Option<String>,
) -> (r: Vec<(&'a str, &'a str)>)
    ensures
        r.deep_view() == browser_fields(
            title@,
            url@,
            browser_name.deep_view(),
            profile_name.deep_view(),
        ),
{
    let mut fields: Vec<(&str, &str)> = Vec::new();
    fields.push(("title", title.as_str()));
    fields.push(("url", url.as_str()));
    match browser_name {
        Some(browser) => {
            fields.push(("browser", browser.as_str()));
        },
        None => {},
    }
    match profile_name {
        Some(profile) => {
            fields.push(("profile", profile.as_str()));
        },
        None => {},
    }
    fields
}

impl Searchable for BookmarkItem {
    fn search_fields(&self) -> (r: Vec<(&str, &str)>)
        ensures
            r.deep_view() == browser_fields(
                self@.title,
                self@.url,
                self@.browser_name,
                self@.profile_name,
            ),
    {
        browser_fields_of(&self.title, &self.url, &self.browser_name, &self.profile_name)
    }
}

impl Searchable for HistoryItem {
    fn search_fields(&self) -> (r: Vec<(&str, &str)>)
        ensures
            r.deep_view() == browser_fields(
                self@.title,
                self@.url,
                self@.browser_name,
                self@.profile_name,
            ),
    {
        browser_fields_of(&self.title, &self.url, &self.browser_name, &self.profile_name)
    }
}

/// A node of the bookmark tree: a bookmark when its type is `url`, a folder
/// of further nodes when its type is `folder`.
#[derive(Debug)]
pub struct BookmarkNode {
    pub children: Vec<BookmarkNode>,
    pub name: String,
    pub node_type: String,
    pub url: Option<String>,
}

/// The two trees of a bookmark file.
#[derive(Debug)]
pub struct BookmarkRoots {
    pub bookmark_bar: BookmarkNode,
    pub other: BookmarkNode,
}

/// A bookmark file.
#[derive(Debug)]
pub struct ChromeBookmarks {
    pub roots: BookmarkRoots,
}

/// The path of a folder: its name after the path of the folder above it,
/// joined by ` > `; its name alone when nothing is above it.
pub open spec fn folder_path(parent: Option<Seq<char>>, name: Seq<char>) -> Seq<char> {
    match parent {
        Some(above) => above + " > "@ + name,
        None => name,
    }
}

/// The bookmarks below a node, in the order of the tree, each with the path
/// of the folders above it.  A node of type `url` is one bookmark if it has a
/// URL and none if it has not; a node of type `folder` gives the bookmarks
/// of its children under its own path; a node of any other type gives
/// nothing.  Browser and profile are not known to the tree.
pub open spec fn flattened(node: BookmarkNode, parent: Option<Seq<char>>) -> Seq<BookmarkItemView>
    decreases node,
{
    if node.node_type@ == "url"@ {
        match node.url {
            Some(url) => seq![
                BookmarkItemView {
                    title: node.name@,
                    url: url@,
                    folder: parent,
                    browser_name: None,
                    profile_name: None,
                },
            ],
            None => Seq::empty(),
        }
    } else if node.node_type@ == "folder"@ {
        flattened_children(
            node.children@,
            node.children@.len(),
            folder_path(parent, node.name@),
        )
    } else {
        Seq::empty()
    }
}

/// The bookmarks below the first `count` of a folder's children, in order.
pub open spec fn flattened_children(children: Seq<BookmarkNode>, count: nat, folder: Seq<char>) -> Seq<
    BookmarkItemView,
>
    decreases children, count,
{
    if count == 0 || count > children.len() {
        Seq::empty()
    } else {
        flattened_children(children, (count - 1) as nat, folder) + flattened(
            children[count - 1],
            Some(folder),
        )
    }
}

/// Moves the items of `more` to the end of `items`.
pub fn append_bookmarks(items: &mut Vec<BookmarkItem>, more: Vec<BookmarkItem>)
    ensures
        final(items).deep_view() == old(items).deep_view() + more.deep_view(),
{
    let ghost start = items.deep_view();
    let ghost raw = more@;
    let ghost all = more.deep_view();
    for item in it: more
        invariant
            it.seq() == raw,
            all.len() == raw.len(),
            forall|k: int| 0 <= k < raw.len() ==> all[k] == (#[trigger] raw[k])@,
            items.deep_view() == start + all.take(it.index() as int),
    {
        let ghost before = items.deep_view();
        items.push(item);
        assert(items.deep_view() =~= before.push(item@));
    }
}

impl BookmarkNode {
    /// The bookmarks below this node, in the order of the tree.
    /// `parent_folder` is the path of the folders above the node.
    pub fn flatten(&self, parent_folder: Option<&str>) -> (r: Vec<BookmarkItem>)
        ensures
            r.deep_view() == flattened(
                *self,
                match parent_folder {
                    Some(p) => Some(p@),
                    None => None,
                },
            ),
        decreases self,
    {
        let mut items: Vec<BookmarkItem> = Vec::new();
        if str_equal(self.node_type.as_str(), "url") {
            match &self.url {
                Some(url) => {
                    let folder = match parent_folder {
                        Some(p) => Some(String::from_str(p)),
                        None => None,
                    };
                    let item = BookmarkItem {
                        title: self.name.clone(),
                        url: url.clone(),
                        folder,
                        browser_name: None,
                        profile_name: None,
                    };
                    items.push(item);
                },
                None => {},
            }
        } else if str_equal(self.node_type.as_str(), "folder") {
            let folder_name = match parent_folder {
                Some(p) => {
                    let mut path = String::from_str(p);
                    path.append(" > ");
                    path.append(self.name.as_str());
                    path
                },
                None => self.name.clone(),
            };
            let mut i: usize = 0;
            while i < self.children.len()
                invariant
                    i <= self.children.len(),
                    items.deep_view() == flattened_children(
                        self.children@,
                        i as nat,
                        folder_name@,
                    ),
                decreases self.children.len() - i,
            {
                let below = self.children[i].flatten(Some(folder_name.as_str()));
                append_bookmarks(&mut items, below);
                i += 1;
            }
        }
        items
    }
}

} // verus!
