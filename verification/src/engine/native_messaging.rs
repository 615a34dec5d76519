//! The shared state behind every transport: the snapshot of the browser's
//! tabs and the queue of pending tab-switch commands.
//!
//! Both live in one [`TabManager`].  The snapshot is replaced as a whole and
//! read as a copy; the queue hands each command out once, oldest first.  A
//! process that serves several transports keeps the manager behind one lock
//! and calls these methods while it holds it, so every method here runs to
//! completion on a consistent state.

use vstd::prelude::*;
use std::collections::VecDeque;
use crate::text::{contains_ignore_case, contains_lowercase, to_lowercase};

verus! {

/// One browser tab, as the extension reports it.
#[derive(Debug)]
pub struct ChromeTab {
    pub id: i32,
    pub window_id: i32,
    pub title: String,
    pub url: String,
    pub fav_icon_url: String,
    pub active: bool,
    pub index: i32,
}

/// The mathematical content of a tab: its numbers, its flag and the
/// characters of its three strings.
pub struct TabView {
    pub id: i32,
    pub window_id: i32,
    pub title: Seq<char>,
    pub url: Seq<char>,
    pub fav_icon_url: Seq<char>,
    pub active: bool,
    pub index: i32,
}

impl View for ChromeTab {
    type V = TabView;

    open spec fn view(&self) -> TabView {
        TabView {
            id: self.id,
            window_id: self.window_id,
            title: self.title@,
            url: self.url@,
            fav_icon_url: self.fav_icon_url@,
            active: self.active,
            index: self.index,
        }
    }
}

impl DeepView for ChromeTab {
    type V = TabView;

    open spec fn deep_view(&self) -> TabView {
        self@
    }
}

impl Clone for ChromeTab {
    fn clone(&self) -> (r: Self)
        ensures
            r == *self,
    {
        ChromeTab {
            id: self.id,
            window_id: self.window_id,
            title: self.title.clone(),
            url: self.url.clone(),
            fav_icon_url: self.fav_icon_url.clone(),
            active: self.active,
            index: self.index,
        }
    }
}

/// A command for the browser extension, waiting in the queue.
#[derive(Debug, Clone, Copy, PartialEq, Eq, Structural)]
pub enum ChromeCommand {
    SwitchToTab { tab_id: i32, window_id: i32 },
}

/// A message from the bridge to the browser on the native-messaging channel.
#[derive(Debug)]
pub enum NativeMessage {
    TabList { tabs: Vec<ChromeTab> },
    SwitchResult { success: bool, tab_id: Option<i32>, error: Option<String> },
}

/// The content of a [`NativeMessage`].
pub enum NativeMessageView {
    TabList { tabs: Seq<TabView> },
    SwitchResult { success: bool, tab_id: Option<i32>, error: Option<Seq<char>> },
}

impl View for NativeMessage {
    type V = NativeMessageView;

    open spec fn view(&self) -> NativeMessageView {
        match *self {
            NativeMessage::TabList { tabs } => NativeMessageView::TabList {
                tabs: tabs.deep_view(),
            },
            NativeMessage::SwitchResult { success, tab_id, error } => {
                NativeMessageView::SwitchResult { success, tab_id, error: error.deep_view() }
            },
        }
    }
}

/// A command from the browser to the bridge on the native-messaging channel.
#[derive(Debug, Clone, Copy, PartialEq, Eq, Structural)]
pub enum NativeCommand {
    GetTabs,
    SwitchToTab { tab_id: i32, window_id: i32 },
}

/// Whether a tab answers a query: the query, with case ignored, occurs in
/// the tab's title or in its URL.
pub open spec fn tab_matches(tab: TabView, query: Seq<char>) -> bool {
    contains_ignore_case(tab.title, query) || contains_ignore_case(tab.url, query)
}

/// The tabs of a snapshot that answer a query, in snapshot order.  The empty
/// query selects every tab.
pub open spec fn matching_tabs(tabs: Seq<TabView>, query: Seq<char>) -> Seq<TabView> {
    if query.len() == 0 {
        tabs
    } else {
        tabs.filter(|tab: TabView| tab_matches(tab, query))
    }
}

/// The state of a command queue after one more command has joined it.
pub open spec fn queue_after_push(queue: Seq<ChromeCommand>, command: ChromeCommand) -> Seq<
    ChromeCommand,
> {
    queue.push(command)
}

/// What a pop hands out: the oldest command, if there is one.
pub open spec fn queue_front(queue: Seq<ChromeCommand>) -> Option<ChromeCommand> {
    if queue.len() == 0 {
        None
    } else {
        Some(queue[0])
    }
}

/// The state of a command queue after a pop: the oldest command is gone and
/// the others keep their order.  An empty queue stays empty.
pub open spec fn queue_after_pop(queue: Seq<ChromeCommand>) -> Seq<ChromeCommand> {
    if queue.len() == 0 {
        queue
    } else {
        queue.drop_first()
    }
}

/// The queue after `commands` have been pushed onto `queue` in order.
pub open spec fn queue_after_pushes(queue: Seq<ChromeCommand>, commands: Seq<ChromeCommand>) -> Seq<
    ChromeCommand,
>
    decreases commands.len(),
{
    if commands.len() == 0 {
        queue
    } else {
        queue_after_push(queue_after_pushes(queue, commands.drop_last()), commands.last())
    }
}

/// The queue after `count` pops.
pub open spec fn queue_after_pops(queue: Seq<ChromeCommand>, count: nat) -> Seq<ChromeCommand>
    decreases count,
{
    if count == 0 {
        queue
    } else {
        queue_after_pop(queue_after_pops(queue, (count - 1) as nat))
    }
}

/// What the pop numbered `k` (from zero) hands out when pops follow one
/// another on `queue`.
pub open spec fn nth_pop(queue: Seq<ChromeCommand>, k: nat) -> Option<ChromeCommand> {
    queue_front(queue_after_pops(queue, k))
}

/// The snapshot after a replace: the new list, whatever the old one was.
pub open spec fn snapshot_after_replace(old_tabs: Seq<TabView>, new_tabs: Seq<TabView>) -> Seq<
    TabView,
> {
    new_tabs
}

/// The snapshot after the lists of `inputs` have replaced it one after the
/// other.
pub open spec fn snapshot_after_replaces(initial: Seq<TabView>, inputs: Seq<Seq<TabView>>) -> Seq<
    TabView,
>
    decreases inputs.len(),
{
    if inputs.len() == 0 {
        initial
    } else {
        snapshot_after_replace(snapshot_after_replaces(initial, inputs.drop_last()), inputs.last())
    }
}

/// What a [`TabManager`] holds: the current snapshot and the pending
/// commands, oldest first.
pub struct TabManagerView {
    pub tabs: Seq<TabView>,
    pub commands: Seq<ChromeCommand>,
}

/// The tab snapshot and the command queue.
#[derive(Debug)]
pub struct TabManager {
    tabs: Vec<ChromeTab>,
    command_queue: VecDeque<ChromeCommand>,
}

impl View for TabManager {
    type V = TabManagerView;

    closed spec fn view(&self) -> TabManagerView {
        TabManagerView { tabs: self.tabs.deep_view(), commands: self.command_queue@ }
    }
}

impl TabManager {
    /// A manager with no tabs and no pending command.
    pub fn new() -> (r: Self)
        ensures
            r@.tabs == Seq::<TabView>::empty(),
            r@.commands == Seq::<ChromeCommand>::empty(),
    {
        let r = TabManager { tabs: Vec::new(), command_queue: VecDeque::new() };
        r
    }

    /// Replaces the snapshot by `tabs`, whatever it held before.
    pub fn update_tabs(&mut self, tabs: Vec<ChromeTab>)
        ensures
            final(self)@.tabs == snapshot_after_replace(old(self)@.tabs, tabs.deep_view()),
            final(self)@.commands == old(self)@.commands,
    {
        self.tabs = tabs;
    }

    /// A copy of the snapshot.
    pub fn get_tabs(&self) -> (r: Vec<ChromeTab>)
        ensures
            r.deep_view() == self@.tabs,
    {
        let r = self.tabs.clone();
        r
    }

    /// Copies of the tabs whose title or URL contains `query`, case ignored,
    /// in snapshot order; every tab when the query is empty.
    pub fn search_tabs(&self, query: &str) -> (r: Vec<ChromeTab>)
        ensures
            r.deep_view() == matching_tabs(self@.tabs, query@),
    {
        if query.is_empty() {
            return self.get_tabs();
        }
        let query_lower = to_lowercase(query);
        let ghost pred = |tab: TabView| tab_matches(tab, query@);
        let ghost all = self.tabs.deep_view();
        let mut found: Vec<ChromeTab> = Vec::new();
        let mut i: usize = 0;
        assert(all.take(0).filter(pred) =~= Seq::<TabView>::empty()) by {
            reveal(Seq::filter);
        }
        while i < self.tabs.len()
            invariant
                i <= self.tabs.len(),
                all == self.tabs.deep_view(),
                pred == (|tab: TabView| tab_matches(tab, query@)),
                query_lower@ == crate::text::lowercase(query@),
                found.deep_view() == all.take(i as int).filter(pred),
            decreases self.tabs.len() - i,
        {
            let tab = &self.tabs[i];
            let hit = contains_lowercase(tab.title.as_str(), query_lower.as_str())
                || contains_lowercase(tab.url.as_str(), query_lower.as_str());
            proof {
                assert(all.take(i + 1) =~= all.take(i as int).push(tab@));
                all.take(i as int).lemma_filter_push(tab@, pred);
            }
            if hit {
                found.push(tab.clone());
            }
            i += 1;
        }
        assert(all.take(i as int) =~= all);
        found
    }

    /// Appends a command to the queue.
    pub fn queue_command(&mut self, command: ChromeCommand)
        ensures
            final(self)@.commands == queue_after_push(old(self)@.commands, command),
            final(self)@.tabs == old(self)@.tabs,
    {
        self.command_queue.push_back(command);
    }

    /// Removes the oldest command from the queue and returns it; returns
    /// `None` and leaves the queue empty when nothing is pending.
    pub fn pop_command(&mut self) -> (r: Option<ChromeCommand>)
        ensures
            r == queue_front(old(self)@.commands),
            final(self)@.commands == queue_after_pop(old(self)@.commands),
            final(self)@.tabs == old(self)@.tabs,
    {
        let r = self.command_queue.pop_front();
        r
    }
}

/// Pushing onto an empty queue builds the pushed commands, in order.
pub proof fn lemma_pushes_build_queue(commands: Seq<ChromeCommand>)
    ensures
        queue_after_pushes(Seq::empty(), commands) == commands,
    decreases commands.len(),
{
    if commands.len() > 0 {
        lemma_pushes_build_queue(commands.drop_last());
    }
}

/// After `count` pops a queue has lost its `count` oldest commands, or all of
/// them if it held fewer.
pub proof fn lemma_pops_skip(queue: Seq<ChromeCommand>, count: nat)
    ensures
        queue_after_pops(queue, count) == if count <= queue.len() {
            queue.skip(count as int)
        } else {
            Seq::empty()
        },
    decreases count,
{
    if count == 0 {
    } else {
        lemma_pops_skip(queue, (count - 1) as nat);
        if count <= queue.len() {
        } else if count - 1 == queue.len() {
        }
    }
}

/// First in, first out: when three commands are pushed onto an empty queue,
/// three pops hand them out in the order of the pushes and a fourth pop finds
/// nothing.
pub proof fn lemma_fifo_three(c1: ChromeCommand, c2: ChromeCommand, c3: ChromeCommand)
    ensures
        ({
            let queue = queue_after_push(
                queue_after_push(queue_after_push(Seq::empty(), c1), c2),
                c3,
            );
            &&& nth_pop(queue, 0) == Some(c1)
            &&& nth_pop(queue, 1) == Some(c2)
            &&& nth_pop(queue, 2) == Some(c3)
            &&& nth_pop(queue, 3) == None::<ChromeCommand>
        }),
{
    let queue = queue_after_push(queue_after_push(queue_after_push(Seq::empty(), c1), c2), c3);
    lemma_pops_skip(queue, 0);
    lemma_pops_skip(queue, 1);
    lemma_pops_skip(queue, 2);
    lemma_pops_skip(queue, 3);
}

/// First in, first out, for any number of commands: after `commands` were
/// pushed onto an empty queue, the pop numbered `k` hands out `commands[k]`,
/// and every pop from the one numbered `commands.len()` on finds nothing.
pub proof fn lemma_fifo(commands: Seq<ChromeCommand>, k: nat)
    ensures
        nth_pop(queue_after_pushes(Seq::empty(), commands), k) == if k < commands.len() {
            Some(commands[k as int])
        } else {
            None
        },
{
    lemma_pushes_build_queue(commands);
    lemma_pops_skip(commands, k);
}

/// At most once: of the pops that follow one another on a queue, the one
/// numbered `k` hands out the entry at position `k` and no other pop hands
/// that entry out; once every entry has been handed out, pops find nothing.
pub proof fn lemma_each_entry_popped_once(queue: Seq<ChromeCommand>, k: nat)
    ensures
        k < queue.len() ==> nth_pop(queue, k) == Some(queue[k as int]),
        k >= queue.len() ==> nth_pop(queue, k) == None::<ChromeCommand>,
        queue_after_pops(queue, k).len() == if k <= queue.len() {
            queue.len() - k
        } else {
            0
        },
{
    lemma_pops_skip(queue, k);
}

/// A push makes the queue one longer and adds the pushed command to its
/// holdings; a pop that hands out a command makes the queue one shorter and
/// takes exactly that command from its holdings, and a pop on an empty queue
/// changes nothing.  So no command is ever lost or doubled.
pub proof fn lemma_queue_holdings(queue: Seq<ChromeCommand>, command: ChromeCommand)
    ensures
        queue_after_push(queue, command).len() == queue.len() + 1,
        queue_after_push(queue, command).to_multiset() == queue.to_multiset().insert(command),
        queue.len() > 0 ==> queue_after_pop(queue).len() == queue.len() - 1,
        queue.len() > 0 ==> queue_after_pop(queue).to_multiset() == queue.to_multiset().remove(
            queue[0],
        ),
        queue.len() == 0 ==> queue_after_pop(queue) == queue,
{
    broadcast use vstd::seq_lib::group_to_multiset_ensures;

    if queue.len() > 0 {
        assert(queue.remove(0) =~= queue.drop_first());
    }
}

/// The snapshot is always the whole list of one replace: after any run of
/// replaces it equals the list given to the last of them, and the initial
/// list if there was none.  A reader therefore never sees a list put
/// together from two replaces.
pub proof fn lemma_snapshot_is_last_replace(initial: Seq<TabView>, inputs: Seq<Seq<TabView>>)
    ensures
        snapshot_after_replaces(initial, inputs) == if inputs.len() == 0 {
            initial
        } else {
            inputs.last()
        },
{
}

} // verus!
