//! The state of the window switcher: the windows that are listed, the text
//! by which they are searched, and the selection.
//!
//! Drawing is not here.  Whoever owns the window reports each key as a
//! [`SwitcherKey`] and leaves when the answer is [`SwitcherOutcome::Exit`].

use vstd::prelude::*;
use crate::data::window_item::WindowItem;
use crate::data::window_provider::WindowProvider;
use crate::filter::search_filter::{SearchFilter, is_selection, kept_query, search_items};
use crate::filter::window_filter::{WindowFilter, filter_windows, is_filtered};
use crate::ui::alt_tab_grid::{AltTabGrid, GridKey, selection_after};

verus! {

/// A key of the window switcher.
#[derive(Debug, Clone, Copy, PartialEq, Eq, Structural)]
pub enum SwitcherKey {
    /// Leaves the switcher.
    Escape,
    /// Shows or hides the search bar.
    F1,
    /// Reads the windows anew.
    F5,
    /// Switches to the selected window and leaves.
    Enter,
    /// Moves the selection.
    Move(GridKey),
}

/// Whether the switcher goes on.
#[derive(Debug, Clone, Copy, PartialEq, Eq, Structural)]
pub enum SwitcherOutcome {
    Stay,
    Exit,
}

/// The selection that fits a list of `count` windows: a selection beyond
/// the end goes to the last window, or to the beginning if there is no
/// window.
pub open spec fn fitted_selection(selected: int, count: int) -> int {
    if selected >= count {
        if count > 0 {
            count - 1
        } else {
            0
        }
    } else {
        selected
    }
}

/// The state of the window switcher.  Provider and filter are any provider
/// and any filter in a box, unless the type says which.
pub struct AltTabApp<
    P: WindowProvider + ?Sized = dyn WindowProvider,
    F: WindowFilter + ?Sized = dyn WindowFilter,
> {
    grid: AltTabGrid,
    search_text: String,
    show_search_bar: bool,
    filtered_windows: Vec<WindowItem>,
    window_provider: Box<P>,
    window_filter: Box<F>,
}

impl<P: WindowProvider + ?Sized, F: WindowFilter + ?Sized> AltTabApp<P, F> {
    /// The selection.
    pub closed spec fn grid(&self) -> AltTabGrid {
        self.grid
    }

    /// The text by which the windows are searched.
    pub closed spec fn search_text(&self) -> Seq<char> {
        self.search_text@
    }

    /// Whether the search bar is shown.
    pub closed spec fn search_bar_shown(&self) -> bool {
        self.show_search_bar
    }

    /// The windows that are listed.
    pub closed spec fn windows(&self) -> Seq<WindowItem> {
        self.filtered_windows@
    }

    /// The provider.
    pub closed spec fn provider(&self) -> &P {
        &*self.window_provider
    }

    /// The filter.
    pub closed spec fn filter(&self) -> &F {
        &*self.window_filter
    }

    /// That `listed` is what the switcher lists when its provider has
    /// `found`: the windows of `found` that the filter keeps and that answer
    /// the search text, in their order.
    pub open spec fn is_listing(
        filter: &F,
        search_text: Seq<char>,
        found: Seq<WindowItem>,
        listed: Seq<WindowItem>,
    ) -> bool {
        exists|kept: Seq<WindowItem>, query: crate::filter::search_filter::SearchFilterView|
            {
                &&& #[trigger] is_filtered(filter, found, kept)
                &&& query.query == kept_query(search_text)
                &&& query.target_fields.len() == 0
                &&& #[trigger] is_selection(query, kept, listed)
            }
    }

    /// That the switcher lists what it finds with its provider now.
    pub open spec fn lists_what_is_found(&self) -> bool {
        exists|found: Vec<WindowItem>|
            #[trigger] call_ensures(P::get_windows, (self.provider(),), found) && Self::is_listing(
                self.filter(),
                self.search_text(),
                found@,
                self.windows(),
            )
    }

    /// The state of a switcher that has just read the windows: the search
    /// bar is shown, nothing is typed, and the first window is selected.
    pub fn new(window_provider: Box<P>, window_filter: Box<F>) -> (r: Self)
        ensures
            r.filter() == &*window_filter,
            r.search_text() == Seq::<char>::empty(),
            r.search_bar_shown(),
            r.grid().selected_index == 0,
            is_filtered_by_provider(r.provider(), r.filter(), r.windows()),
    {
        let mut provider = window_provider;
        provider.refresh();
        let all = provider.get_windows();
        let listed = filter_windows(all, &*window_filter);
        AltTabApp {
            grid: AltTabGrid::new(),
            search_text: String::new(),
            show_search_bar: true,
            filtered_windows: listed,
            window_provider: provider,
            window_filter,
        }
    }

    /// The windows that are listed.
    pub fn filtered_windows(&self) -> (r: &Vec<WindowItem>)
        ensures
            r@ == self.windows(),
    {
        &self.filtered_windows
    }

    /// The index of the selected window.
    pub fn selected_index(&self) -> (r: usize)
        ensures
            r == self.grid().selected_index,
    {
        self.grid.selected_index
    }

    /// Whether the search bar is shown.
    pub fn show_search_bar(&self) -> (r: bool)
        ensures
            r == self.search_bar_shown(),
    {
        self.show_search_bar
    }

    /// Lists the windows anew: asks the provider for its windows, keeps
    /// those that the filter keeps and that answer the search text, and
    /// moves a selection beyond the end to the last window.
    pub fn filter_windows(&mut self)
        ensures
            final(self).provider() == old(self).provider(),
            final(self).filter() == old(self).filter(),
            final(self).search_text() == old(self).search_text(),
            final(self).search_bar_shown() == old(self).search_bar_shown(),
            final(self).grid().columns == old(self).grid().columns,
            final(self).lists_what_is_found(),
            final(self).grid().selected_index == fitted_selection(
                old(self).grid().selected_index as int,
                final(self).windows().len() as int,
            ),
    {
        let all = self.window_provider.get_windows();
        let kept = filter_windows(all, &*self.window_filter);
        let search = SearchFilter::new(self.search_text.as_str());
        let listed = search_items(kept, &search);
        assert(call_ensures(P::get_windows, (self.provider(),), all) && is_filtered(
            self.filter(),
            all@,
            kept@,
        ) && is_selection(search@, kept@, listed@));
        self.filtered_windows = listed;
        let count = self.filtered_windows.len();
        if self.grid.selected_index >= count {
            self.grid.selected_index = if count > 0 {
                count - 1
            } else {
                0
            };
        }
    }

    /// Takes the text that the user has now typed and lists the windows
    /// anew.
    pub fn set_search_text(&mut self, text: String)
        ensures
            final(self).provider() == old(self).provider(),
            final(self).filter() == old(self).filter(),
            final(self).search_text() == text@,
            final(self).search_bar_shown() == old(self).search_bar_shown(),
            final(self).lists_what_is_found(),
            final(self).grid().selected_index == fitted_selection(
                old(self).grid().selected_index as int,
                final(self).windows().len() as int,
            ),
    {
        self.search_text = text;
        self.filter_windows();
    }

    /// Asks the provider to bring the selected window to the front, and
    /// returns its answer; `None` when no window is selected.
    pub fn switch_to_selected_window(&self) -> (r: Option<Result<(), String>>)
        ensures
            match r {
                Some(answer) => self.grid().selected_index < self.windows().len() && call_ensures(
                    P::focus_window,
                    (self.provider(), self.windows()[self.grid().selected_index as int].hwnd),
                    answer,
                ),
                None => self.grid().selected_index >= self.windows().len(),
            },
    {
        if self.grid.selected_index < self.filtered_windows.len() {
            let window = &self.filtered_windows[self.grid.selected_index];
            Some(self.window_provider.focus_window(window.hwnd))
        } else {
            None
        }
    }

    /// Asks the provider to bring the window with this index to the front,
    /// as a click on it does, and says whether the switcher goes on: it
    /// leaves if there is such a window.
    pub fn click(&self, index: usize) -> (r: SwitcherOutcome)
        ensures
            r == (if index < self.windows().len() {
                SwitcherOutcome::Exit
            } else {
                SwitcherOutcome::Stay
            }),
    {
        if index < self.filtered_windows.len() {
            let window = &self.filtered_windows[index];
            let _ = self.window_provider.focus_window(window.hwnd);
            SwitcherOutcome::Exit
        } else {
            SwitcherOutcome::Stay
        }
    }

    /// Acts on one key.
    ///
    /// Escape leaves.  F1 shows or hides the search bar.  F5 has the
    /// provider look for windows anew and lists them.  While windows are
    /// listed, the arrow keys, home and end move the selection over the
    /// grid, and enter switches to the selected window and leaves.
    pub fn handle_key(&mut self, key: SwitcherKey) -> (r: SwitcherOutcome)
        ensures
            final(self).filter() == old(self).filter(),
            final(self).search_text() == old(self).search_text(),
            final(self).grid().columns == old(self).grid().columns,
            r == (if key == SwitcherKey::Escape || (key == SwitcherKey::Enter && old(self).windows().len() > 0) {
                SwitcherOutcome::Exit
            } else {
                SwitcherOutcome::Stay
            }),
            final(self).search_bar_shown() == (if key == SwitcherKey::F1 {
                !old(self).search_bar_shown()
            } else {
                old(self).search_bar_shown()
            }),
            key == SwitcherKey::F5 ==> final(self).lists_what_is_found() && final(self).grid().selected_index == fitted_selection(
                old(self).grid().selected_index as int,
                final(self).windows().len() as int,
            ),
            key != SwitcherKey::F5 ==> final(self).windows() == old(self).windows() && final(self).provider() == old(self).provider(),
            match key {
                SwitcherKey::Move(direction) => final(self).grid().selected_index
                    == selection_after(
                    old(self).grid().selected_index as int,
                    old(self).grid().columns as int,
                    old(self).windows().len() as int,
                    direction,
                ),
                SwitcherKey::F5 => true,
                _ => final(self).grid() == old(self).grid(),
            },
    {
        match key {
            SwitcherKey::Escape => SwitcherOutcome::Exit,
            SwitcherKey::F1 => {
                self.show_search_bar = !self.show_search_bar;
                SwitcherOutcome::Stay
            },
            SwitcherKey::F5 => {
                self.window_provider.refresh();
                self.filter_windows();
                SwitcherOutcome::Stay
            },
            SwitcherKey::Enter => {
                if self.filtered_windows.len() > 0 {
                    let _ = self.switch_to_selected_window();
                    SwitcherOutcome::Exit
                } else {
                    SwitcherOutcome::Stay
                }
            },
            SwitcherKey::Move(direction) => {
                self.grid.handle_keyboard_navigation(direction, self.filtered_windows.len());
                SwitcherOutcome::Stay
            },
        }
    }
}

/// That `listed` is what a filter keeps of the windows that a provider has.
pub open spec fn is_filtered_by_provider<P: WindowProvider + ?Sized, F: WindowFilter + ?Sized>(
    provider: &P,
    filter: &F,
    listed: Seq<WindowItem>,
) -> bool {
    exists|found: Vec<WindowItem>|
        #[trigger] call_ensures(P::get_windows, (provider,), found) && is_filtered(
            filter,
            found@,
            listed,
        )
}

} // verus!
