//! The result list of the browser mode: which result is selected, and how
//! many results are shown.
//!
//! A long list is shown in part.  The part grows by a batch whenever the
//! selection comes within a few lines of its end.  Drawing is not here:
//! whoever draws the list asks [`BrowserList::render`] how many results to
//! draw and reports each key that was pressed as a [`ListKey`].

use vstd::prelude::*;
use vstd::string::{StrSliceExecFns, StringExecFns};
use crate::text::{find_first, find_last, first_index, last_occurrence};

verus! {

/// The longest query of a URL that the list shows in full, in characters,
/// the question mark counted.
pub const MAX_QUERY_CHARS: usize = 50;

/// The number of results that a list shows at first.
pub const INITIAL_VISIBLE_ITEMS: usize = 20;

/// The number of results by which the shown part grows.
pub const ITEMS_PER_BATCH: usize = 10;

/// How near the end of the shown part the selection may come before the
/// part grows.
pub const REVEAL_MARGIN: usize = 5;

/// A key that moves the selection of a list.
#[derive(Debug, Clone, Copy, PartialEq, Eq, Structural)]
pub enum ListKey {
    Down,
    Up,
    Home,
    End,
}

/// The state of a result list.
#[derive(Debug, Clone, Copy, PartialEq, Eq, Structural)]
pub struct BrowserList {
    pub selected_index: usize,
    visible_items: usize,
    items_per_batch: usize,
}

/// What a [`BrowserList`] holds.
pub struct BrowserListView {
    pub selected_index: int,
    pub visible_items: int,
    pub items_per_batch: int,
}

impl View for BrowserList {
    type V = BrowserListView;

    closed spec fn view(&self) -> BrowserListView {
        BrowserListView {
            selected_index: self.selected_index as int,
            visible_items: self.visible_items as int,
            items_per_batch: self.items_per_batch as int,
        }
    }
}

/// The smaller of two numbers.
pub open spec fn smaller(a: int, b: int) -> int {
    if a <= b {
        a
    } else {
        b
    }
}

/// The list after a look at whether more is to be shown: when the selection
/// is within [`REVEAL_MARGIN`] of the end of the shown part and there are
/// results beyond it, the part grows by a batch, but not beyond the results.
pub open spec fn revealed(list: BrowserListView, results_count: int) -> BrowserListView {
    if list.selected_index + REVEAL_MARGIN >= list.visible_items && list.visible_items
        < results_count {
        BrowserListView {
            selected_index: list.selected_index,
            visible_items: smaller(list.visible_items + list.items_per_batch, results_count),
            items_per_batch: list.items_per_batch,
        }
    } else {
        list
    }
}

/// The number of results to draw: the shown part, or all results if they
/// are fewer.
pub open spec fn drawn_count(list: BrowserListView, results_count: int) -> int {
    smaller(list.visible_items, results_count)
}

/// The list after a key.  Down moves to the next result if there is one
/// and then looks whether more is to be shown; up moves to the one before;
/// home goes to the first result; end goes to the last and shows them all.
pub open spec fn list_after_key(list: BrowserListView, key: ListKey, results_count: int) -> BrowserListView {
    match key {
        ListKey::Down => if list.selected_index + 1 < results_count {
            revealed(
                BrowserListView {
                    selected_index: list.selected_index + 1,
                    visible_items: list.visible_items,
                    items_per_batch: list.items_per_batch,
                },
                results_count,
            )
        } else {
            list
        },
        ListKey::Up => if list.selected_index > 0 {
            BrowserListView {
                selected_index: list.selected_index - 1,
                visible_items: list.visible_items,
                items_per_batch: list.items_per_batch,
            }
        } else {
            list
        },
        ListKey::Home => BrowserListView {
            selected_index: 0,
            visible_items: list.visible_items,
            items_per_batch: list.items_per_batch,
        },
        ListKey::End => if results_count > 0 {
            BrowserListView {
                selected_index: results_count - 1,
                visible_items: results_count,
                items_per_batch: list.items_per_batch,
            }
        } else {
            list
        },
    }
}

/// Where the line under a visit ends and the note on its visits begins: at
/// the last ` (visited`, or at the end of the line if there is none.
pub open spec fn visit_note_start(line: Seq<char>) -> int {
    match last_occurrence(line, " (visited"@) {
        Some(at) => at,
        None => line.len() as int,
    }
}

/// A URL as the list shows it: when it has a query, which begins with its
/// first question mark, of more than `max_query_length` characters, the
/// query is cut to that length and three dots are put after it.
pub open spec fn shortened_url(url: Seq<char>, max_query_length: int) -> Seq<char> {
    match first_index(url, '?') {
        Some(at) => if url.len() - at > max_query_length {
            url.take(at + max_query_length) + "..."@
        } else {
            url
        },
        None => url,
    }
}

/// The line under a visit as the list shows it: the URL shortened, the note
/// on the visits as it is.
pub open spec fn line_for_display(line: Seq<char>, max_query_length: int) -> Seq<char> {
    let split = visit_note_start(line);
    shortened_url(line.take(split), max_query_length) + line.skip(split)
}

impl BrowserList {
    /// Shortens the URL in the line under a visit and leaves the note on
    /// the visits as it is.  Positions and lengths are counted in
    /// characters.
    pub fn trim_url_for_display(url: &str, max_query_length: usize) -> (r: String)
        ensures
            r@ == line_for_display(url@, max_query_length as int),
    {
        proof {
            crate::text::lemma_last_occurrence(
                url@,
                " (visited"@,
                url@.len() - " (visited"@.len(),
            );
        }
        let length = url.unicode_len();
        let split = match find_last(url, " (visited") {
            Some(at) => at,
            None => length,
        };
        let url_part = url.substring_char(0, split);
        let visit_info = url.substring_char(split, length);
        assert(url_part@ =~= url@.take(split as int));
        assert(visit_info@ =~= url@.skip(split as int));
        proof {
            crate::text::lemma_first_index(url_part@, '?', 0);
        }
        let mut shown = match find_first(url_part, '?') {
            Some(at) => {
                if split - at > max_query_length {
                    let kept = url_part.substring_char(0, at + max_query_length);
                    let mut cut = String::from_str(kept);
                    cut.append("...");
                    assert(kept@ =~= url_part@.take(at + max_query_length));
                    cut
                } else {
                    String::from_str(url_part)
                }
            },
            None => String::from_str(url_part),
        };
        assert(shown@ == shortened_url(url_part@, max_query_length as int));
        shown.append(visit_info);
        shown
    }

    /// A list with the first result selected and the first
    /// [`INITIAL_VISIBLE_ITEMS`] results shown.
    pub fn new() -> (r: Self)
        ensures
            r@ == (BrowserListView {
                selected_index: 0,
                visible_items: INITIAL_VISIBLE_ITEMS as int,
                items_per_batch: ITEMS_PER_BATCH as int,
            }),
    {
        BrowserList {
            selected_index: 0,
            visible_items: INITIAL_VISIBLE_ITEMS,
            items_per_batch: ITEMS_PER_BATCH,
        }
    }

    fn reveal_more(&mut self, results_count: usize)
        ensures
            final(self)@ == revealed(old(self)@, results_count as int),
    {
        let near_end = self.visible_items <= REVEAL_MARGIN || self.selected_index
            >= self.visible_items - REVEAL_MARGIN;
        if near_end && self.visible_items < results_count {
            if results_count - self.visible_items <= self.items_per_batch {
                self.visible_items = results_count;
            } else {
                self.visible_items = self.visible_items + self.items_per_batch;
            }
        }
    }

    /// Looks whether more is to be shown, and returns the number of results
    /// to draw, which are the first of the list.
    pub fn render(&mut self, results_count: usize) -> (r: usize)
        ensures
            final(self)@ == revealed(old(self)@, results_count as int),
            r == drawn_count(final(self)@, results_count as int),
            r <= results_count,
    {
        self.reveal_more(results_count);
        if self.visible_items <= results_count {
            self.visible_items
        } else {
            results_count
        }
    }

    /// Moves the selection for one key, in a list of `results_count`
    /// results.
    pub fn handle_keyboard(&mut self, key: ListKey, results_count: usize)
        ensures
            final(self)@ == list_after_key(old(self)@, key, results_count as int),
    {
        match key {
            ListKey::Down => {
                if results_count > 0 && self.selected_index < results_count - 1 {
                    self.selected_index = self.selected_index + 1;
                    self.reveal_more(results_count);
                }
            },
            ListKey::Up => {
                if self.selected_index > 0 {
                    self.selected_index = self.selected_index - 1;
                }
            },
            ListKey::Home => {
                self.selected_index = 0;
            },
            ListKey::End => {
                if results_count > 0 {
                    self.selected_index = results_count - 1;
                    self.visible_items = results_count;
                }
            },
        }
    }

    /// Goes back to the first result and to the first
    /// [`INITIAL_VISIBLE_ITEMS`] results shown, for the results of a new
    /// search.
    pub fn reset_for_new_search(&mut self)
        ensures
            final(self)@ == (BrowserListView {
                selected_index: 0,
                visible_items: INITIAL_VISIBLE_ITEMS as int,
                items_per_batch: old(self)@.items_per_batch,
            }),
    {
        self.selected_index = 0;
        self.visible_items = INITIAL_VISIBLE_ITEMS;
    }

    /// The index of the selected result.
    pub fn selected(&self) -> (r: usize)
        ensures
            r == self@.selected_index,
    {
        self.selected_index
    }

    /// Selects the result with this index.
    pub fn select(&mut self, index: usize)
        ensures
            final(self)@ == (BrowserListView {
                selected_index: index as int,
                visible_items: old(self)@.visible_items,
                items_per_batch: old(self)@.items_per_batch,
            }),
    {
        self.selected_index = index;
    }

    /// The number of results that are shown at most.
    pub fn visible_items(&self) -> (r: usize)
        ensures
            r == self@.visible_items,
    {
        self.visible_items
    }
}

/// A selection that points at a result is always among the results that are
/// drawn after the key that moved it, as long as the shown part reaches
/// beyond the selection before the key.
pub proof fn lemma_selection_is_drawn(list: BrowserListView, key: ListKey, results_count: int)
    requires
        0 <= list.selected_index < results_count,
        list.selected_index < list.visible_items,
        list.items_per_batch >= 1,
    ensures
        ({
            let after = list_after_key(list, key, results_count);
            0 <= after.selected_index < drawn_count(after, results_count)
        }),
{
}

} // verus!
