//! A browser tab as an item that can be listed and searched.

use vstd::prelude::*;
use crate::engine::native_messaging::{ChromeTab, TabView};
use crate::filter::search_filter::Searchable;

verus! {

/// A browser tab.
#[derive(Debug)]
pub struct TabItem {
    pub tab: ChromeTab,
}

impl View for TabItem {
    type V = TabView;

    open spec fn view(&self) -> TabView {
        self.tab@
    }
}

impl DeepView for TabItem {
    type V = TabView;

    open spec fn deep_view(&self) -> TabView {
        self@
    }
}

impl Clone for TabItem {
    fn clone(&self) -> (r: Self)
        ensures
            r == *self,
    {
        TabItem { tab: self.tab.clone() }
    }
}

/// The name under which a tab is shown: its title, or its URL when it has
/// no title.
pub open spec fn display_name(tab: TabView) -> Seq<char> {
    if tab.title.len() == 0 {
        tab.url
    } else {
        tab.title
    }
}

/// The fields by which a tab is searched: title and URL, in this order.
pub open spec fn tab_fields(tab: TabView) -> Seq<(Seq<char>, Seq<char>)> {
    seq![("title"@, tab.title), ("url"@, tab.url)]
}

impl TabItem {
    pub fn new(tab: ChromeTab) -> (r: Self)
        ensures
            r@ == tab@,
            r.tab == tab,
    {
        TabItem { tab }
    }

    /// The tab's title, or its URL when the title is empty.
    pub fn get_display_name(&self) -> (r: String)
        ensures
            r@ == display_name(self@),
    {
        if self.tab.title.as_str().is_empty() {
            self.tab.url.clone()
        } else {
            self.tab.title.clone()
        }
    }

    pub fn get_url(&self) -> (r: &str)
        ensures
            r@ == self@.url,
    {
        self.tab.url.as_str()
    }

    pub fn get_id(&self) -> (r: i32)
        ensures
            r == self@.id,
    {
        self.tab.id
    }

    pub fn get_window_id(&self) -> (r: i32)
        ensures
            r == self@.window_id,
    {
        self.tab.window_id
    }

    pub fn is_active(&self) -> (r: bool)
        ensures
            r == self@.active,
    {
        self.tab.active
    }
}

impl Searchable for TabItem {
    fn search_fields(&self) -> (r: Vec<(&str, &str)>)
        ensures
            r.deep_view() == tab_fields(self@),
    {
        let mut fields: Vec<(&str, &str)> = Vec::new();
        fields.push(("title", self.tab.title.as_str()));
        fields.push(("url", self.tab.url.as_str()));
        fields
    }
}

} // verus!
