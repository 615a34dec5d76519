//! Filters over the window list, and ways to put filters together.

use vstd::prelude::*;
use crate::data::window_item::{WindowItem, is_listable};
use crate::filter::search_filter::marked;

verus! {

/// A rule that says which windows to list.
pub trait WindowFilter {
    /// Whether the window is to be listed.
    fn matches(&self, window: &WindowItem) -> bool;

    /// The filter's name.
    fn name(&self) -> &str;
}

/// That `verdict` is a filter's answer for a window.
pub open spec fn is_answer<F: WindowFilter + ?Sized>(
    filter: &F,
    window: &WindowItem,
    verdict: bool,
) -> bool {
    call_ensures(F::matches, (filter, window), verdict)
}

/// That `kept` is what a filter keeps of `windows`: every window has an
/// answer of the filter, and `kept` holds the windows whose answer is yes,
/// in their order.
pub open spec fn is_filtered<F: WindowFilter + ?Sized>(
    filter: &F,
    windows: Seq<WindowItem>,
    kept: Seq<WindowItem>,
) -> bool {
    exists|verdicts: Seq<bool>|
        {
            &&& verdicts.len() == windows.len()
            &&& forall|i: int|
                0 <= i < windows.len() ==> is_answer(filter, &#[trigger] windows[i], verdicts[i])
            &&& kept == #[trigger] marked(windows, verdicts)
        }
}

/// The filter for the windows that a task bar would show: those that are
/// visible and have a title that is not blank.
#[derive(Debug, Clone, Copy, PartialEq, Eq, Structural)]
pub struct TaskbarWindowFilter;

impl TaskbarWindowFilter {
    pub fn new() -> (r: Self) {
        TaskbarWindowFilter
    }

    /// Whether a task bar would show the window.
    pub fn is_taskbar_window(window: &WindowItem) -> (r: bool)
        ensures
            r == is_listable(window@),
    {
        window.is_visible && window.is_valid()
    }
}

impl WindowFilter for TaskbarWindowFilter {
    fn matches(&self, window: &WindowItem) -> (r: bool)
        ensures
            r == is_listable(window@),
    {
        Self::is_taskbar_window(window)
    }

    fn name(&self) -> (r: &str)
        ensures
            r@ == "TaskbarWindowFilter"@,
    {
        "TaskbarWindowFilter"
    }
}

/// How a composite filter puts the answers of its parts together.
#[derive(Debug, Clone, Copy, PartialEq, Eq, Structural)]
pub enum FilterMode {
    /// Every part has to say yes.
    All,
    /// One part that says yes is enough.
    Any,
}

/// The answer of a composite filter without parts: yes when all parts have
/// to agree, no when one has to.
pub open spec fn empty_answer(mode: FilterMode) -> bool {
    mode == FilterMode::All
}

/// Several filters that answer as one.  The parts are filters of any kind
/// in a box, unless the type says which.
pub struct CompositeFilter<F: WindowFilter + ?Sized = dyn WindowFilter> {
    mode: FilterMode,
    filters: Vec<Box<F>>,
}

impl CompositeFilter {
    /// A composite filter without parts, for parts of any kind.
    pub fn new(mode: FilterMode) -> (r: Self)
        ensures
            r.mode() == mode,
            r.parts() == Seq::<Box<dyn WindowFilter>>::empty(),
    {
        CompositeFilter { filters: Vec::new(), mode }
    }
}

impl<F: WindowFilter + ?Sized> CompositeFilter<F> {
    /// The parts, in the order in which they were added.
    pub closed spec fn parts(&self) -> Seq<Box<F>> {
        self.filters@
    }

    /// The mode.
    pub closed spec fn mode(&self) -> FilterMode {
        self.mode
    }

    /// The same filter with one more part, which is asked last.
    pub fn add_filter(self, filter: Box<F>) -> (r: Self)
        ensures
            r.mode() == self.mode(),
            r.parts() == self.parts().push(filter),
            r.parts().len() == self.parts().len() + 1,
            r.parts()[self.parts().len() as int] == filter,
            forall|i: int| 0 <= i < self.parts().len() ==> r.parts()[i] == self.parts()[i],
    {
        let mut filters = self.filters;
        filters.push(filter);
        CompositeFilter { filters, mode: self.mode }
    }

    /// That every part answers `verdict` for a window.
    pub open spec fn all_answer(&self, window: &WindowItem, verdict: bool) -> bool {
        forall|i: int|
            0 <= i < self.parts().len() ==> is_answer(&*(#[trigger] self.parts()[i]), window, verdict)
    }

    /// That some part answers `verdict` for a window.
    pub open spec fn some_answer(&self, window: &WindowItem, verdict: bool) -> bool {
        exists|i: int|
            0 <= i < self.parts().len() && is_answer(&*(#[trigger] self.parts()[i]), window, verdict)
    }

    /// That `verdict` is the composite's answer for a window.  In mode
    /// `All` it is yes when every part said yes and no when a part said no;
    /// in mode `Any` it is yes when a part said yes and no when every part
    /// said no.
    pub open spec fn is_composite_answer(&self, window: &WindowItem, verdict: bool) -> bool {
        match self.mode() {
            FilterMode::All => if verdict {
                self.all_answer(window, true)
            } else {
                self.some_answer(window, false)
            },
            FilterMode::Any => if verdict {
                self.some_answer(window, true)
            } else {
                self.all_answer(window, false)
            },
        }
    }
}

impl<F: WindowFilter + ?Sized> WindowFilter for CompositeFilter<F> {
    /// Asks the parts in order and stops at the first answer that decides.
    fn matches(&self, window: &WindowItem) -> (r: bool)
        ensures
            self.is_composite_answer(window, r),
            self.parts().len() == 0 ==> r == empty_answer(self.mode()),
    {
        let decisive = match self.mode {
            FilterMode::All => false,
            FilterMode::Any => true,
        };
        let mut i: usize = 0;
        while i < self.filters.len()
            invariant
                i <= self.filters.len(),
                self.parts() == self.filters@,
                decisive == (self.mode() == FilterMode::Any),
                forall|k: int|
                    0 <= k < i ==> is_answer(&*(#[trigger] self.parts()[k]), window, !decisive),
            decreases self.filters.len() - i,
        {
            let answer = self.filters[i].matches(window);
            if answer == decisive {
                return decisive;
            }
            i += 1;
        }
        !decisive
    }

    fn name(&self) -> (r: &str)
        ensures
            r@ == "CompositeFilter"@,
    {
        "CompositeFilter"
    }
}

/// Keeps the windows that a filter lists, in their order: every window
/// gets the filter's answer, and the result holds those for which it was
/// yes.
pub fn filter_windows<F: WindowFilter + ?Sized>(windows: Vec<WindowItem>, filter: &F) -> (r: Vec<
    WindowItem,
>)
    ensures
        is_filtered(filter, windows@, r@),
{
    let ghost raw = windows@;
    let ghost mut verdicts: Seq<bool> = Seq::empty();
    let mut out: Vec<WindowItem> = Vec::new();
    for window in it: windows
        invariant
            it.seq() == raw,
            verdicts.len() == it.index(),
            forall|i: int|
                0 <= i < verdicts.len() ==> is_answer(filter, &#[trigger] raw[i], verdicts[i]),
            out@ == marked(raw.take(it.index() as int), verdicts),
    {
        let ghost index = verdicts.len() as int;
        let keep = filter.matches(&window);
        proof {
            assert(raw.take(index + 1).drop_last() =~= raw.take(index));
            assert(verdicts.push(keep).drop_last() =~= verdicts);
            verdicts = verdicts.push(keep);
        }
        if keep {
            out.push(window);
        }
    }
    assert(raw.take(raw.len() as int) =~= raw);
    out
}

} // verus!
