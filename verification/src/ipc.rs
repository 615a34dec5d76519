//! The protocol between the launcher and the bridge process on the named
//! pipe: the messages, the launcher's answers, and the rules by which both
//! sides retry when the pipe cannot be had.
//!
//! The exchange is strictly request, then response.  A `GetTabs` request is
//! how the bridge polls for both things the launcher may have for it: a
//! pending command goes out first, and only when none is pending does the
//! tab list go out.  A `SwitchToTab` request puts its command into the same
//! queue from which every transport's poll is served.

use vstd::prelude::*;
use crate::engine::native_messaging::{
    ChromeCommand,
    ChromeTab,
    TabManager,
    TabManagerView,
    TabView,
    queue_after_pop,
    queue_after_push,
    queue_front,
    snapshot_after_replace,
};

verus! {

/// The name of the pipe on which the launcher listens.
pub const PIPE_NAME: &'static str = "\\\\.\\pipe\\my_launcher_ipc";

/// How often the bridge tries to open the pipe before it reports failure.
pub const CONNECT_ATTEMPTS: u32 = 10;

/// How long the bridge waits between two attempts to open the pipe, in
/// milliseconds.
pub const CONNECT_RETRY_DELAY_MS: u64 = 100;

/// How long the launcher waits before it tries again to create the pipe, in
/// milliseconds.
pub const SERVER_RETRY_DELAY_MS: u64 = 5000;

/// A tab as it travels over the pipe.
#[derive(Debug)]
pub struct TabInfo {
    pub id: i32,
    pub window_id: i32,
    pub title: String,
    pub url: String,
    pub fav_icon_url: String,
    pub active: bool,
    pub index: i32,
}

impl View for TabInfo {
    type V = TabView;

    open spec fn view(&self) -> TabView {
        TabView {
            id: self.id,
            window_id: self.window_id,
            title: self.title@,
            url: self.url@,
            fav_icon_url: self.fav_icon_url@,
            active: self.active,
            index: self.index,
        }
    }
}

impl DeepView for TabInfo {
    type V = TabView;

    open spec fn deep_view(&self) -> TabView {
        self@
    }
}

impl Clone for TabInfo {
    fn clone(&self) -> (r: Self)
        ensures
            r == *self,
    {
        TabInfo {
            id: self.id,
            window_id: self.window_id,
            title: self.title.clone(),
            url: self.url.clone(),
            fav_icon_url: self.fav_icon_url.clone(),
            active: self.active,
            index: self.index,
        }
    }
}

/// A command that the launcher hands to the bridge for the browser
/// extension.
#[derive(Debug, Clone, Copy, PartialEq, Eq, Structural)]
pub enum ChromeExtensionCommand {
    SwitchToTab { tab_id: i32, window_id: i32 },
}

/// A message on the pipe, in either direction.
#[derive(Debug)]
pub enum IpcMessage {
    GetTabs,
    SwitchToTab { tab_id: i32, window_id: i32 },
    TabList { tabs: Vec<TabInfo> },
    TabSwitchResult { success: bool, error: Option<String> },
    ChromeCommand { command: ChromeExtensionCommand },
}

/// The content of an [`IpcMessage`].
pub enum IpcMessageView {
    GetTabs,
    SwitchToTab { tab_id: i32, window_id: i32 },
    TabList { tabs: Seq<TabView> },
    TabSwitchResult { success: bool, error: Option<Seq<char>> },
    ChromeCommand { command: ChromeExtensionCommand },
}

impl View for IpcMessage {
    type V = IpcMessageView;

    open spec fn view(&self) -> IpcMessageView {
        match *self {
            IpcMessage::GetTabs => IpcMessageView::GetTabs,
            IpcMessage::SwitchToTab { tab_id, window_id } => IpcMessageView::SwitchToTab {
                tab_id,
                window_id,
            },
            IpcMessage::TabList { tabs } => IpcMessageView::TabList { tabs: tabs.deep_view() },
            IpcMessage::TabSwitchResult { success, error } => IpcMessageView::TabSwitchResult {
                success,
                error: error.deep_view(),
            },
            IpcMessage::ChromeCommand { command } => IpcMessageView::ChromeCommand { command },
        }
    }
}

impl DeepView for IpcMessage {
    type V = IpcMessageView;

    open spec fn deep_view(&self) -> IpcMessageView {
        self@
    }
}

/// The pipe's form of a queued command.
pub open spec fn extension_command(command: ChromeCommand) -> ChromeExtensionCommand {
    match command {
        ChromeCommand::SwitchToTab { tab_id, window_id } => ChromeExtensionCommand::SwitchToTab {
            tab_id,
            window_id,
        },
    }
}

/// The acknowledgement that the launcher gives to a switch request, which
/// it has then queued, and to a pushed tab list, which it has then taken.
/// Success means that the request was accepted, not that the switch was
/// made.
pub open spec fn accepted() -> IpcMessageView {
    IpcMessageView::TabSwitchResult { success: true, error: None }
}

/// The priority rule of a poll: a pending command is delivered in place of
/// the tab list; the tab list goes out only when no command is pending.
pub open spec fn poll_reply(state: TabManagerView) -> IpcMessageView {
    match queue_front(state.commands) {
        Some(command) => IpcMessageView::ChromeCommand { command: extension_command(command) },
        None => IpcMessageView::TabList { tabs: state.tabs },
    }
}

/// What the launcher answers to a message; `None` where the message is one
/// that only the launcher itself sends, which gets no answer.
pub open spec fn server_reply(state: TabManagerView, message: IpcMessageView) -> Option<
    IpcMessageView,
> {
    match message {
        IpcMessageView::GetTabs => Some(poll_reply(state)),
        IpcMessageView::SwitchToTab { .. } => Some(accepted()),
        IpcMessageView::TabList { .. } => Some(accepted()),
        IpcMessageView::TabSwitchResult { .. } => None,
        IpcMessageView::ChromeCommand { .. } => None,
    }
}

/// What a message leaves of the launcher's state: a poll takes the delivered
/// command off the queue, a switch request puts its command at the end of
/// the queue, a pushed tab list replaces the snapshot, and nothing else
/// changes anything.
pub open spec fn server_state_after(state: TabManagerView, message: IpcMessageView) -> TabManagerView {
    match message {
        IpcMessageView::GetTabs => TabManagerView {
            tabs: state.tabs,
            commands: queue_after_pop(state.commands),
        },
        IpcMessageView::SwitchToTab { tab_id, window_id } => TabManagerView {
            tabs: state.tabs,
            commands: queue_after_push(
                state.commands,
                ChromeCommand::SwitchToTab { tab_id, window_id },
            ),
        },
        IpcMessageView::TabList { tabs } => TabManagerView {
            tabs: snapshot_after_replace(state.tabs, tabs),
            commands: state.commands,
        },
        _ => state,
    }
}

/// The pipe's form of a tab.
pub fn tab_info_from(tab: ChromeTab) -> (r: TabInfo)
    ensures
        r@ == tab@,
{
    TabInfo {
        id: tab.id,
        window_id: tab.window_id,
        title: tab.title,
        url: tab.url,
        fav_icon_url: tab.fav_icon_url,
        active: tab.active,
        index: tab.index,
    }
}

/// The launcher's form of a tab that came over the pipe.
pub fn chrome_tab_from(info: TabInfo) -> (r: ChromeTab)
    ensures
        r@ == info@,
{
    ChromeTab {
        id: info.id,
        window_id: info.window_id,
        title: info.title,
        url: info.url,
        fav_icon_url: info.fav_icon_url,
        active: info.active,
        index: info.index,
    }
}

/// The pipe's form of a tab list, tab by tab and in the same order.
pub fn tab_infos_from(tabs: Vec<ChromeTab>) -> (r: Vec<TabInfo>)
    ensures
        r.deep_view() == tabs.deep_view(),
{
    let ghost raw = tabs@;
    let ghost all = tabs.deep_view();
    let mut out: Vec<TabInfo> = Vec::new();
    for tab in it: tabs
        invariant
            it.seq() == raw,
            all.len() == raw.len(),
            forall|k: int| 0 <= k < raw.len() ==> all[k] == (#[trigger] raw[k])@,
            out.len() == it.index(),
            forall|k: int| 0 <= k < out.len() ==> (#[trigger] out[k])@ == all[k],
    {
        out.push(tab_info_from(tab));
    }
    out
}

/// The launcher's form of a tab list that came over the pipe, tab by tab and
/// in the same order.
pub fn chrome_tabs_from(infos: Vec<TabInfo>) -> (r: Vec<ChromeTab>)
    ensures
        r.deep_view() == infos.deep_view(),
{
    let ghost raw = infos@;
    let ghost all = infos.deep_view();
    let mut out: Vec<ChromeTab> = Vec::new();
    for info in it: infos
        invariant
            it.seq() == raw,
            all.len() == raw.len(),
            forall|k: int| 0 <= k < raw.len() ==> all[k] == (#[trigger] raw[k])@,
            out.len() == it.index(),
            forall|k: int| 0 <= k < out.len() ==> (#[trigger] out[k])@ == all[k],
    {
        out.push(chrome_tab_from(info));
    }
    out
}

/// The pipe's form of a queued command.
pub fn extension_command_from(command: ChromeCommand) -> (r: ChromeExtensionCommand)
    ensures
        r == extension_command(command),
{
    match command {
        ChromeCommand::SwitchToTab { tab_id, window_id } => ChromeExtensionCommand::SwitchToTab {
            tab_id,
            window_id,
        },
    }
}

/// Answers a poll: delivers the oldest pending command and takes it off the
/// queue, or, when none is pending, delivers a copy of the tab list.
pub fn answer_poll(tab_manager: &mut TabManager) -> (r: IpcMessage)
    ensures
        r@ == poll_reply(old(tab_manager)@),
        final(tab_manager)@.tabs == old(tab_manager)@.tabs,
        final(tab_manager)@.commands == queue_after_pop(old(tab_manager)@.commands),
{
    match tab_manager.pop_command() {
        Some(command) => IpcMessage::ChromeCommand { command: extension_command_from(command) },
        None => {
            let tabs = tab_manager.get_tabs();
            IpcMessage::TabList { tabs: tab_infos_from(tabs) }
        },
    }
}

/// The launcher's side of one exchange: acts on `message` and returns the
/// answer to send, or `None` where the message calls for none.
pub fn handle_message(tab_manager: &mut TabManager, message: IpcMessage) -> (r: Option<IpcMessage>)
    ensures
        r.deep_view() == server_reply(old(tab_manager)@, message@),
        final(tab_manager)@ == server_state_after(old(tab_manager)@, message@),
{
    match message {
        IpcMessage::GetTabs => Some(answer_poll(tab_manager)),
        IpcMessage::SwitchToTab { tab_id, window_id } => {
            tab_manager.queue_command(ChromeCommand::SwitchToTab { tab_id, window_id });
            Some(IpcMessage::TabSwitchResult { success: true, error: None })
        },
        IpcMessage::TabList { tabs } => {
            tab_manager.update_tabs(chrome_tabs_from(tabs));
            Some(IpcMessage::TabSwitchResult { success: true, error: None })
        },
        IpcMessage::TabSwitchResult { .. } => None,
        IpcMessage::ChromeCommand { .. } => None,
    }
}

/// When to try again after a failure, and when to stop trying.
#[derive(Debug, Clone, Copy, PartialEq, Eq, Structural)]
pub struct RetryPolicy {
    /// The number of attempts after which failure is reported; `None` to
    /// try for ever.
    pub max_attempts: Option<u32>,
    /// The wait before the next attempt, in milliseconds.
    pub delay_ms: u64,
}

/// What to do after a failed attempt.
#[derive(Debug, Clone, Copy, PartialEq, Eq, Structural)]
pub enum RetryDecision {
    /// Wait this long, then try again.
    RetryAfter { delay_ms: u64 },
    /// Report the failure.
    GiveUp,
}

/// What a policy decides once `failures` attempts in a row have failed.
pub open spec fn retry_decision(policy: RetryPolicy, failures: u32) -> RetryDecision {
    match policy.max_attempts {
        Some(max) => if failures < max {
            RetryDecision::RetryAfter { delay_ms: policy.delay_ms }
        } else {
            RetryDecision::GiveUp
        },
        None => RetryDecision::RetryAfter { delay_ms: policy.delay_ms },
    }
}

/// The bridge's policy for opening the pipe: ten attempts, a tenth of a
/// second apart.
pub fn client_retry_policy() -> (r: RetryPolicy)
    ensures
        r == (RetryPolicy {
            max_attempts: Some(CONNECT_ATTEMPTS),
            delay_ms: CONNECT_RETRY_DELAY_MS,
        }),
{
    RetryPolicy { max_attempts: Some(CONNECT_ATTEMPTS), delay_ms: CONNECT_RETRY_DELAY_MS }
}

/// The launcher's policy for creating the pipe: five seconds between
/// attempts, for as long as it takes.
pub fn server_retry_policy() -> (r: RetryPolicy)
    ensures
        r == (RetryPolicy { max_attempts: None, delay_ms: SERVER_RETRY_DELAY_MS }),
{
    RetryPolicy { max_attempts: None, delay_ms: SERVER_RETRY_DELAY_MS }
}

/// Decides what follows the failure that brought the count of failed
/// attempts to `failures`.
pub fn after_failure(policy: RetryPolicy, failures: u32) -> (r: RetryDecision)
    ensures
        r == retry_decision(policy, failures),
{
    match policy.max_attempts {
        Some(max) => if failures < max {
            RetryDecision::RetryAfter { delay_ms: policy.delay_ms }
        } else {
            RetryDecision::GiveUp
        },
        None => RetryDecision::RetryAfter { delay_ms: policy.delay_ms },
    }
}

/// What has just happened on the launcher's end of the pipe.
#[derive(Debug)]
pub enum ServerEvent {
    /// The pipe could not be created.
    CreateFailed,
    /// The wait after a failed creation is over.
    RetryDue,
    /// The pipe exists.
    Created,
    /// No client could be accepted.
    AcceptFailed,
    /// A client is connected.
    ClientConnected,
    /// A message arrived.
    Received(IpcMessage),
    /// Reading a message failed.
    ReadFailed,
    /// The answer went out.
    Sent,
    /// Sending the answer failed.
    SendFailed,
}

/// The content of a [`ServerEvent`].
pub enum ServerEventView {
    CreateFailed,
    RetryDue,
    Created,
    AcceptFailed,
    ClientConnected,
    Received(IpcMessageView),
    ReadFailed,
    Sent,
    SendFailed,
}

impl View for ServerEvent {
    type V = ServerEventView;

    open spec fn view(&self) -> ServerEventView {
        match *self {
            ServerEvent::CreateFailed => ServerEventView::CreateFailed,
            ServerEvent::RetryDue => ServerEventView::RetryDue,
            ServerEvent::Created => ServerEventView::Created,
            ServerEvent::AcceptFailed => ServerEventView::AcceptFailed,
            ServerEvent::ClientConnected => ServerEventView::ClientConnected,
            ServerEvent::Received(message) => ServerEventView::Received(message@),
            ServerEvent::ReadFailed => ServerEventView::ReadFailed,
            ServerEvent::Sent => ServerEventView::Sent,
            ServerEvent::SendFailed => ServerEventView::SendFailed,
        }
    }
}

/// What the launcher's end of the pipe does next.
#[derive(Debug)]
pub enum ServerAction {
    /// Create the pipe; the first thing a server does.
    CreatePipe,
    /// Wait, then report [`ServerEvent::RetryDue`].
    Wait { delay_ms: u64 },
    /// Wait for a client.
    Accept,
    /// Read the next message.
    Read,
    /// Send this answer.
    Send(IpcMessage),
}

/// The content of a [`ServerAction`].
pub enum ServerActionView {
    CreatePipe,
    Wait { delay_ms: u64 },
    Accept,
    Read,
    Send(IpcMessageView),
}

impl View for ServerAction {
    type V = ServerActionView;

    open spec fn view(&self) -> ServerActionView {
        match *self {
            ServerAction::CreatePipe => ServerActionView::CreatePipe,
            ServerAction::Wait { delay_ms } => ServerActionView::Wait { delay_ms },
            ServerAction::Accept => ServerActionView::Accept,
            ServerAction::Read => ServerActionView::Read,
            ServerAction::Send(message) => ServerActionView::Send(message@),
        }
    }
}

/// The launcher's loop as a rule from what happened to what to do next.
///
/// A pipe that cannot be created is tried again after the server's retry
/// delay, without end.  Once a client is connected the server reads a
/// message, sends the answer if there is one, and reads again.  When an
/// accept, a read or a send fails, the connection is given up and the pipe is
/// created anew for the next client.
pub open spec fn server_action(state: TabManagerView, event: ServerEventView) -> ServerActionView {
    match event {
        ServerEventView::CreateFailed => ServerActionView::Wait { delay_ms: SERVER_RETRY_DELAY_MS },
        ServerEventView::RetryDue => ServerActionView::CreatePipe,
        ServerEventView::Created => ServerActionView::Accept,
        ServerEventView::AcceptFailed => ServerActionView::CreatePipe,
        ServerEventView::ClientConnected => ServerActionView::Read,
        ServerEventView::Received(message) => match server_reply(state, message) {
            Some(reply) => ServerActionView::Send(reply),
            None => ServerActionView::Read,
        },
        ServerEventView::ReadFailed => ServerActionView::CreatePipe,
        ServerEventView::Sent => ServerActionView::Read,
        ServerEventView::SendFailed => ServerActionView::CreatePipe,
    }
}

/// What an event leaves of the launcher's state: only a received message can
/// change it.
pub open spec fn server_state_after_event(state: TabManagerView, event: ServerEventView) -> TabManagerView {
    match event {
        ServerEventView::Received(message) => server_state_after(state, message),
        _ => state,
    }
}

/// One turn of the launcher's loop: takes in what happened, acts on the
/// shared state if a message arrived, and says what to do next.
pub fn server_step(tab_manager: &mut TabManager, event: ServerEvent) -> (r: ServerAction)
    ensures
        r@ == server_action(old(tab_manager)@, event@),
        final(tab_manager)@ == server_state_after_event(old(tab_manager)@, event@),
{
    match event {
        ServerEvent::CreateFailed => match after_failure(server_retry_policy(), 1) {
            RetryDecision::RetryAfter { delay_ms } => ServerAction::Wait { delay_ms },
            RetryDecision::GiveUp => ServerAction::CreatePipe,
        },
        ServerEvent::RetryDue => ServerAction::CreatePipe,
        ServerEvent::Created => ServerAction::Accept,
        ServerEvent::AcceptFailed => ServerAction::CreatePipe,
        ServerEvent::ClientConnected => ServerAction::Read,
        ServerEvent::Received(message) => match handle_message(tab_manager, message) {
            Some(reply) => ServerAction::Send(reply),
            None => ServerAction::Read,
        },
        ServerEvent::ReadFailed => ServerAction::CreatePipe,
        ServerEvent::Sent => ServerAction::Read,
        ServerEvent::SendFailed => ServerAction::CreatePipe,
    }
}

/// The bridge opens the pipe at most [`CONNECT_ATTEMPTS`] times: each of the
/// first nine failures is followed by a wait of [`CONNECT_RETRY_DELAY_MS`]
/// and another attempt, the tenth by giving up.  The launcher never gives up
/// creating the pipe.
pub proof fn lemma_retry_bounds(failures: u32)
    ensures
        failures < CONNECT_ATTEMPTS ==> retry_decision(
            RetryPolicy { max_attempts: Some(CONNECT_ATTEMPTS), delay_ms: CONNECT_RETRY_DELAY_MS },
            failures,
        ) == (RetryDecision::RetryAfter { delay_ms: 100 }),
        failures >= CONNECT_ATTEMPTS ==> retry_decision(
            RetryPolicy { max_attempts: Some(CONNECT_ATTEMPTS), delay_ms: CONNECT_RETRY_DELAY_MS },
            failures,
        ) == RetryDecision::GiveUp,
        retry_decision(
            RetryPolicy { max_attempts: None, delay_ms: SERVER_RETRY_DELAY_MS },
            failures,
        ) == (RetryDecision::RetryAfter { delay_ms: 5000 }),
{
}

} // verus!
