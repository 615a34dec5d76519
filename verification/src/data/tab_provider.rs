//! Where the launcher gets its browser tabs from.

use vstd::prelude::*;
use crate::data::tab_item::TabItem;
use crate::engine::native_messaging::{
    ChromeTab,
    TabManager,
    TabManagerView,
    TabView,
    matching_tabs,
    snapshot_after_replace,
};

verus! {

/// A source of browser tabs.
pub trait TabProvider {
    /// Every tab.
    fn get_tabs(&self) -> Vec<TabItem>;

    /// The tabs that answer a query.
    fn search_tabs(&self, query: &str) -> Vec<TabItem>;

    /// Takes a new list of tabs in place of the old one.
    fn update_tabs(&mut self, tabs: Vec<ChromeTab>);
}

/// The provider that serves the tabs of a [`TabManager`].
#[derive(Debug)]
pub struct ChromeTabProvider {
    tab_manager: TabManager,
}

impl View for ChromeTabProvider {
    type V = TabManagerView;

    closed spec fn view(&self) -> TabManagerView {
        self.tab_manager@
    }
}

/// Wraps tabs as items, tab by tab and in the same order.
pub fn tab_items_from(tabs: Vec<ChromeTab>) -> (r: Vec<TabItem>)
    ensures
        r.deep_view() == tabs.deep_view(),
{
    let ghost raw = tabs@;
    let ghost all = tabs.deep_view();
    let mut out: Vec<TabItem> = Vec::new();
    for tab in it: tabs
        invariant
            it.seq() == raw,
            all.len() == raw.len(),
            forall|k: int| 0 <= k < raw.len() ==> all[k] == (#[trigger] raw[k])@,
            out.len() == it.index(),
            forall|k: int| 0 <= k < out.len() ==> (#[trigger] out[k])@ == all[k],
    {
        out.push(TabItem::new(tab));
    }
    out
}

impl ChromeTabProvider {
    /// A provider over a manager of its own, which holds nothing yet.
    pub fn new() -> (r: Self)
        ensures
            r@.tabs == Seq::<TabView>::empty(),
            r@.commands.len() == 0,
    {
        ChromeTabProvider { tab_manager: TabManager::new() }
    }

    /// A provider over the given manager.
    pub fn new_with_tab_manager(tab_manager: TabManager) -> (r: Self)
        ensures
            r@ == tab_manager@,
    {
        ChromeTabProvider { tab_manager }
    }

    /// The manager whose tabs the provider serves.
    pub fn get_tab_manager(&self) -> (r: &TabManager)
        ensures
            r@ == self@,
    {
        &self.tab_manager
    }
}

impl TabProvider for ChromeTabProvider {
    fn get_tabs(&self) -> (r: Vec<TabItem>)
        ensures
            r.deep_view() == self@.tabs,
    {
        tab_items_from(self.tab_manager.get_tabs())
    }

    fn search_tabs(&self, query: &str) -> (r: Vec<TabItem>)
        ensures
            r.deep_view() == matching_tabs(self@.tabs, query@),
    {
        tab_items_from(self.tab_manager.search_tabs(query))
    }

    fn update_tabs(&mut self, tabs: Vec<ChromeTab>)
        ensures
            final(self)@.tabs == snapshot_after_replace(old(self)@.tabs, tabs.deep_view()),
            final(self)@.commands == old(self)@.commands,
    {
        self.tab_manager.update_tabs(tabs);
    }
}

} // verus!
