//! The grid of the window switcher: what an item of the grid has to offer,
//! and how the selection moves over the grid.
//!
//! Drawing is not here.  Whoever draws the grid reports each key that was
//! pressed as a [`GridKey`] and shows the selection that [`AltTabGrid`]
//! holds.

use vstd::prelude::*;
use vstd::string::{StrSliceExecFns, StringExecFns};

verus! {

/// The number of columns of a grid that is not told otherwise.
pub const DEFAULT_COLUMNS: usize = 5;

/// The longest title that a grid shows in full, in characters.
pub const MAX_TITLE_CHARS: usize = 25;

/// What a grid shows of an item.
pub trait GridItem {
    /// The item's title.
    fn title(&self) -> &str;

    /// A line about the item, such as the name of its process.
    fn description(&self) -> &str;

    /// The handle of the item's window, by which its picture is found.
    fn hwnd(&self) -> isize;

    /// A text that names this item and no other.
    fn id(&self) -> String;
}

/// A key that moves the selection.
#[derive(Debug, Clone, Copy, PartialEq, Eq, Structural)]
pub enum GridKey {
    Right,
    Left,
    Down,
    Up,
    Home,
    End,
}

/// The selection of a grid: the index of the selected item, and the number
/// of columns by which the items are laid out, row after row.
#[derive(Debug, Clone, Copy, PartialEq, Eq, Structural)]
pub struct AltTabGrid {
    pub selected_index: usize,
    pub columns: usize,
}

/// Where the selection stands after a key, in a grid of `item_count` items.
///
/// Right and left step through the items and wrap around at the ends.  Down
/// and up move by a whole row and stay where they are when there is no item
/// to move to.  Home and end go to the first and the last item.  An empty
/// grid has nothing to select, and no key moves its selection.
pub open spec fn selection_after(selected: int, columns: int, item_count: int, key: GridKey) -> int {
    if item_count <= 0 {
        selected
    } else {
        match key {
            GridKey::Right => (selected + 1) % item_count,
            GridKey::Left => if selected == 0 {
                item_count - 1
            } else {
                selected - 1
            },
            GridKey::Down => if selected + columns < item_count {
                selected + columns
            } else {
                selected
            },
            GridKey::Up => if selected >= columns {
                selected - columns
            } else {
                selected
            },
            GridKey::Home => 0,
            GridKey::End => item_count - 1,
        }
    }
}

/// The number of rows that `item_count` items fill in a grid of `columns`
/// columns.
pub open spec fn row_count(item_count: int, columns: int) -> int
    recommends
        columns > 0,
{
    (item_count + columns - 1) / columns
}

/// What a grid shows of a title: the title itself when it has at most
/// `max_len` characters, and otherwise its first `max_len - 3` characters and
/// three dots.
pub open spec fn truncated(text: Seq<char>, max_len: int) -> Seq<char> {
    if text.len() > max_len {
        text.take(max_len - 3) + "..."@
    } else {
        text
    }
}

impl AltTabGrid {
    /// The selection on the first item of a grid of [`DEFAULT_COLUMNS`]
    /// columns.
    pub fn new() -> (r: Self)
        ensures
            r.selected_index == 0,
            r.columns == DEFAULT_COLUMNS,
    {
        AltTabGrid { selected_index: 0, columns: DEFAULT_COLUMNS }
    }

    /// Moves the selection for one key, in a grid of `item_count` items.
    pub fn handle_keyboard_navigation(&mut self, key: GridKey, item_count: usize)
        ensures
            final(self).columns == old(self).columns,
            final(self).selected_index == selection_after(
                old(self).selected_index as int,
                old(self).columns as int,
                item_count as int,
                key,
            ),
    {
        if item_count == 0 {
            return ;
        }
        let selected = self.selected_index;
        match key {
            GridKey::Right => {
                if selected == usize::MAX {
                    assert((selected + 1) % (item_count as int) == ((selected % item_count) + 1) % (
                    item_count as int)) by (nonlinear_arith)
                        requires
                            item_count > 0,
                            selected >= 0,
                    ;
                    self.selected_index = ((selected % item_count) + 1) % item_count;
                } else {
                    self.selected_index = (selected + 1) % item_count;
                }
            },
            GridKey::Left => {
                self.selected_index = if selected == 0 {
                    item_count - 1
                } else {
                    selected - 1
                };
            },
            GridKey::Down => {
                if self.columns < item_count && selected < item_count - self.columns {
                    self.selected_index = selected + self.columns;
                }
            },
            GridKey::Up => {
                if selected >= self.columns {
                    self.selected_index = selected - self.columns;
                }
            },
            GridKey::Home => {
                self.selected_index = 0;
            },
            GridKey::End => {
                self.selected_index = item_count - 1;
            },
        }
    }

    /// The row and the column of the item with this index.
    pub fn cell_of(&self, index: usize) -> (r: (usize, usize))
        requires
            self.columns > 0,
        ensures
            r.0 == index / self.columns,
            r.1 == index % self.columns,
            r.0 * self.columns + r.1 == index,
            r.1 < self.columns,
    {
        let row = index / self.columns;
        let col = index % self.columns;
        assert(row * self.columns + col == index) by (nonlinear_arith)
            requires
                self.columns > 0,
                row == index / self.columns,
                col == index % self.columns,
        ;
        (row, col)
    }

    /// The number of rows that `item_count` items fill.
    pub fn rows_for(&self, item_count: usize) -> (r: usize)
        requires
            self.columns > 0,
        ensures
            r == row_count(item_count as int, self.columns as int),
    {
        if item_count == 0 {
            assert((self.columns - 1) / (self.columns as int) == 0) by (nonlinear_arith)
                requires
                    self.columns > 0,
            ;
            0
        } else {
            assert((item_count - 1) / (self.columns as int) + 1 == (item_count + self.columns - 1)
                / (self.columns as int)) by (nonlinear_arith)
                requires
                    self.columns > 0,
                    item_count > 0,
            ;
            (item_count - 1) / self.columns + 1
        }
    }

    /// Cuts a title to at most `max_len` characters, the last three of which
    /// are dots when something was cut.  A title that is to be cut needs room
    /// for the dots.
    pub fn truncate_text(&self, text: &str, max_len: usize) -> (r: String)
        requires
            max_len >= 3 || text@.len() <= max_len,
        ensures
            r@ == truncated(text@, max_len as int),
    {
        if text.unicode_len() > max_len {
            let head = text.substring_char(0, max_len - 3);
            let mut cut = String::from_str(head);
            cut.append("...");
            cut
        } else {
            String::from_str(text)
        }
    }
}

impl Default for AltTabGrid {
    fn default() -> (r: Self)
        ensures
            r.selected_index == 0,
            r.columns == DEFAULT_COLUMNS,
    {
        Self::new()
    }
}

/// A selection that points at an item keeps pointing at an item, whatever
/// key is pressed.
pub proof fn lemma_selection_stays_in_grid(
    selected: int,
    columns: int,
    item_count: int,
    key: GridKey,
)
    requires
        0 <= selected < item_count,
        columns >= 0,
    ensures
        0 <= selection_after(selected, columns, item_count, key) < item_count,
{
}

} // verus!
