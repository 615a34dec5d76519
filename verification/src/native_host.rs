//! The bridge process between the browser and the launcher.
//!
//! The browser speaks native messaging on the bridge's standard input and
//! output: envelopes as in [`crate::framing`], with its own vocabulary of
//! commands and responses.  The bridge turns each command into a request on
//! the launcher's pipe and the launcher's answer into a response.  Native
//! messaging has no way to push: the browser hears from the bridge only in
//! answer to its own polls.  A command that the launcher has queued for the
//! browser therefore travels in the answer to a `getTabs` poll, as a
//! `switchResult` whose `error` field holds `SWITCH_TAB:<tab>:<window>`.  The
//! extension parses that text, so its form is fixed.
//!
//! Reading, writing and the pipe are not here.  Whoever owns them reports
//! what happened as a [`HostEvent`] and carries out the [`HostAction`] that
//! [`host_step`] returns.

use vstd::prelude::*;
use vstd::string::StringExecFns;
use crate::engine::native_messaging::{
    ChromeTab,
    NativeCommand,
    NativeMessage,
    NativeMessageView,
    TabView,
};
use crate::framing::{
    body_is_json,
    check_body,
    checked_body,
    checked_length,
    decode_header,
    is_json,
    prefix_value,
};
use crate::ipc::{
    ChromeExtensionCommand,
    IpcMessage,
    IpcMessageView,
    chrome_tabs_from,
    tab_infos_from,
};
use crate::text::{decimal, i64_to_string, str_equal};

verus! {

/// What an inbound message turned out to be.
#[derive(Debug)]
pub enum HostInbound {
    /// A command of the browser.
    Command(NativeCommand),
    /// A tab list that the browser pushes.
    TabList(Vec<ChromeTab>),
    /// The browser's word on a tab switch that it was asked to make;
    /// `success` is `None` when the message does not say.
    SwitchAck { success: Option<bool> },
    /// Nothing that the bridge knows.
    Unknown,
}

/// The content of a [`HostInbound`].
pub enum HostInboundView {
    Command(NativeCommand),
    TabList(Seq<TabView>),
    SwitchAck { success: Option<bool> },
    Unknown,
}

impl View for HostInbound {
    type V = HostInboundView;

    open spec fn view(&self) -> HostInboundView {
        match *self {
            HostInbound::Command(command) => HostInboundView::Command(command),
            HostInbound::TabList(tabs) => HostInboundView::TabList(tabs.deep_view()),
            HostInbound::SwitchAck { success } => HostInboundView::SwitchAck { success },
            HostInbound::Unknown => HostInboundView::Unknown,
        }
    }
}

/// How the launcher answered, if it did.
#[derive(Debug)]
pub enum LauncherReply {
    /// This platform has no pipe to the launcher.
    Unsupported,
    /// The launcher could not be reached, or the exchange broke off.
    Failed,
    /// The launcher's answer.
    Message(IpcMessage),
}

/// The content of a [`LauncherReply`].
pub enum LauncherReplyView {
    Unsupported,
    Failed,
    Message(IpcMessageView),
}

impl View for LauncherReply {
    type V = LauncherReplyView;

    open spec fn view(&self) -> LauncherReplyView {
        match *self {
            LauncherReply::Unsupported => LauncherReplyView::Unsupported,
            LauncherReply::Failed => LauncherReplyView::Failed,
            LauncherReply::Message(message) => LauncherReplyView::Message(message@),
        }
    }
}

/// The order in which the shapes of an inbound message are tried: a command
/// first, then a pushed tab list, then an acknowledgement, which is any
/// message whose `type` is `tabSwitchAck`.  What is none of them is unknown.
pub open spec fn classified(
    command: Option<NativeCommand>,
    tab_list: Option<Seq<TabView>>,
    type_tag: Option<Seq<char>>,
    success: Option<bool>,
) -> HostInboundView {
    match command {
        Some(c) => HostInboundView::Command(c),
        None => match tab_list {
            Some(tabs) => HostInboundView::TabList(tabs),
            None => if type_tag == Some("tabSwitchAck"@) {
                HostInboundView::SwitchAck { success }
            } else {
                HostInboundView::Unknown
            },
        },
    }
}

/// Decides what an inbound message is, from the readings of it in each of
/// the shapes that the bridge knows: `command` and `tab_list` are its
/// readings as a command and as a pushed tab list, `type_tag` and `success`
/// the text of its `type` field and the flag of its `success` field, each
/// `None` where the message has no such reading.
pub fn classify(
    command: Option<NativeCommand>,
    tab_list: Option<Vec<ChromeTab>>,
    type_tag: Option<&str>,
    success: Option<bool>,
) -> (r: HostInbound)
    ensures
        r@ == classified(
            command,
            tab_list.deep_view(),
            match type_tag {
                Some(t) => Some(t@),
                None => None,
            },
            success,
        ),
{
    match command {
        Some(c) => HostInbound::Command(c),
        None => match tab_list {
            Some(tabs) => HostInbound::TabList(tabs),
            None => match type_tag {
                Some(tag) => if str_equal(tag, "tabSwitchAck") {
                    HostInbound::SwitchAck { success }
                } else {
                    HostInbound::Unknown
                },
                None => HostInbound::Unknown,
            },
        },
    }
}

/// The request on the pipe that stands for a command of the browser.
pub open spec fn launcher_request(command: NativeCommand) -> IpcMessageView {
    match command {
        NativeCommand::GetTabs => IpcMessageView::GetTabs,
        NativeCommand::SwitchToTab { tab_id, window_id } => IpcMessageView::SwitchToTab {
            tab_id,
            window_id,
        },
    }
}

/// The text by which a queued command travels to the extension.
pub open spec fn switch_directive(tab_id: i32, window_id: i32) -> Seq<char> {
    "SWITCH_TAB:"@ + decimal(tab_id as int) + ":"@ + decimal(window_id as int)
}

/// The response to the browser's poll.  A tab list from the launcher is
/// passed on.  A queued command is passed on as a successful `switchResult`
/// that names the tab and carries the directive in its `error` field.
/// Whatever else happened, the browser gets an empty tab list.
pub open spec fn poll_response(reply: LauncherReplyView) -> NativeMessageView {
    match reply {
        LauncherReplyView::Message(IpcMessageView::TabList { tabs }) => NativeMessageView::TabList {
            tabs,
        },
        LauncherReplyView::Message(
            IpcMessageView::ChromeCommand {
                command: ChromeExtensionCommand::SwitchToTab { tab_id, window_id },
            },
        ) => NativeMessageView::SwitchResult {
            success: true,
            tab_id: Some(tab_id),
            error: Some(switch_directive(tab_id, window_id)),
        },
        _ => NativeMessageView::TabList { tabs: Seq::empty() },
    }
}

/// The response to the browser's request to switch to a tab.  The launcher's
/// verdict is passed on, with the tab's number when it is a success.  Without
/// a verdict the switch has failed, and the `error` field says why.
pub open spec fn switch_response(tab_id: i32, reply: LauncherReplyView) -> NativeMessageView {
    match reply {
        LauncherReplyView::Message(IpcMessageView::TabSwitchResult { success, error }) => {
            NativeMessageView::SwitchResult {
                success,
                tab_id: if success {
                    Some(tab_id)
                } else {
                    None
                },
                error,
            }
        },
        LauncherReplyView::Unsupported => NativeMessageView::SwitchResult {
            success: false,
            tab_id: None,
            error: Some("Tab switching not supported on this platform"@),
        },
        _ => NativeMessageView::SwitchResult {
            success: false,
            tab_id: None,
            error: Some("Failed to communicate with launcher"@),
        },
    }
}

/// The response to a command of the browser, given how the launcher
/// answered the request that stands for it.
pub open spec fn command_response(command: NativeCommand, reply: LauncherReplyView) -> NativeMessageView {
    match command {
        NativeCommand::GetTabs => poll_response(reply),
        NativeCommand::SwitchToTab { tab_id, window_id } => switch_response(tab_id, reply),
    }
}

/// What the bridge tells the launcher about an inbound message that is no
/// command: a pushed tab list is passed on, an acknowledgement that says
/// whether the switch succeeded is passed on as a verdict, and nothing else
/// is told.
pub open spec fn launcher_notice(inbound: HostInboundView) -> Option<IpcMessageView> {
    match inbound {
        HostInboundView::TabList(tabs) => Some(IpcMessageView::TabList { tabs }),
        HostInboundView::SwitchAck { success: Some(success) } => Some(
            IpcMessageView::TabSwitchResult {
                success,
                error: if success {
                    None
                } else {
                    Some("Tab switch failed"@)
                },
            },
        ),
        _ => None,
    }
}

/// The request on the pipe that stands for a command of the browser.
pub fn request_for(command: NativeCommand) -> (r: IpcMessage)
    ensures
        r@ == launcher_request(command),
{
    match command {
        NativeCommand::GetTabs => IpcMessage::GetTabs,
        NativeCommand::SwitchToTab { tab_id, window_id } => IpcMessage::SwitchToTab {
            tab_id,
            window_id,
        },
    }
}

/// The text by which a queued command travels to the extension:
/// `SWITCH_TAB:`, the tab, a colon, the window.
pub fn switch_directive_for(tab_id: i32, window_id: i32) -> (r: String)
    ensures
        r@ == switch_directive(tab_id, window_id),
{
    let mut text = String::from_str("SWITCH_TAB:");
    let tab = i64_to_string(tab_id as i64);
    text.append(tab.as_str());
    text.append(":");
    let window = i64_to_string(window_id as i64);
    text.append(window.as_str());
    text
}

/// The response to a command of the browser, given how the launcher
/// answered.
pub fn handle_command(command: NativeCommand, reply: LauncherReply) -> (r: NativeMessage)
    ensures
        r@ == command_response(command, reply@),
{
    match command {
        NativeCommand::GetTabs => match reply {
            LauncherReply::Message(IpcMessage::TabList { tabs }) => NativeMessage::TabList {
                tabs: chrome_tabs_from(tabs),
            },
            LauncherReply::Message(
                IpcMessage::ChromeCommand {
                    command: ChromeExtensionCommand::SwitchToTab { tab_id, window_id },
                },
            ) => NativeMessage::SwitchResult {
                success: true,
                tab_id: Some(tab_id),
                error: Some(switch_directive_for(tab_id, window_id)),
            },
            _ => {
                let tabs: Vec<ChromeTab> = Vec::new();
                assert(tabs.deep_view() =~= Seq::<TabView>::empty());
                NativeMessage::TabList { tabs }
            },
        },
        NativeCommand::SwitchToTab { tab_id, window_id } => match reply {
            LauncherReply::Message(IpcMessage::TabSwitchResult { success, error }) => {
                NativeMessage::SwitchResult {
                    success,
                    tab_id: if success {
                        Some(tab_id)
                    } else {
                        None
                    },
                    error,
                }
            },
            LauncherReply::Unsupported => NativeMessage::SwitchResult {
                success: false,
                tab_id: None,
                error: Some(String::from_str("Tab switching not supported on this platform")),
            },
            _ => NativeMessage::SwitchResult {
                success: false,
                tab_id: None,
                error: Some(String::from_str("Failed to communicate with launcher")),
            },
        },
    }
}

/// What the bridge tells the launcher about an inbound message that is no
/// command, if anything.
pub fn handle_chrome_response(inbound: HostInbound) -> (r: Option<IpcMessage>)
    ensures
        r.deep_view() == launcher_notice(inbound@),
{
    match inbound {
        HostInbound::TabList(tabs) => Some(IpcMessage::TabList { tabs: tab_infos_from(tabs) }),
        HostInbound::SwitchAck { success: Some(success) } => Some(
            IpcMessage::TabSwitchResult {
                success,
                error: if success {
                    None
                } else {
                    Some(String::from_str("Tab switch failed"))
                },
            },
        ),
        _ => None,
    }
}

/// Where the bridge stands.
#[derive(Debug, Clone, Copy, PartialEq, Eq, Structural)]
pub enum HostState {
    /// Between two messages of the browser, or reading one.
    Reading,
    /// A command of the browser is with the launcher.
    AwaitingLauncher(NativeCommand),
    /// The loop is over.
    Stopped,
}

/// What has just happened in the bridge.
#[derive(Debug)]
pub enum HostEvent {
    /// The four bytes of a prefix were read.
    Header([u8; 4]),
    /// The input ended where a prefix was to begin.
    InputClosed,
    /// Reading the prefix or the body failed.
    ReadFailed,
    /// The body that the prefix advertised was read.
    Body(Vec<u8>),
    /// The body was read as a message.
    Inbound(HostInbound),
    /// The launcher answered a request, or did not.
    Launcher(LauncherReply),
    /// The launcher was told, or could not be.
    Told,
    /// The response was written.
    Written,
    /// The response could not be written.
    WriteFailed,
}

/// The content of a [`HostEvent`].
pub enum HostEventView {
    Header(Seq<u8>),
    InputClosed,
    ReadFailed,
    Body(Seq<u8>),
    Inbound(HostInboundView),
    Launcher(LauncherReplyView),
    Told,
    Written,
    WriteFailed,
}

impl View for HostEvent {
    type V = HostEventView;

    open spec fn view(&self) -> HostEventView {
        match *self {
            HostEvent::Header(header) => HostEventView::Header(header@),
            HostEvent::InputClosed => HostEventView::InputClosed,
            HostEvent::ReadFailed => HostEventView::ReadFailed,
            HostEvent::Body(body) => HostEventView::Body(body@),
            HostEvent::Inbound(inbound) => HostEventView::Inbound(inbound@),
            HostEvent::Launcher(reply) => HostEventView::Launcher(reply@),
            HostEvent::Told => HostEventView::Told,
            HostEvent::Written => HostEventView::Written,
            HostEvent::WriteFailed => HostEventView::WriteFailed,
        }
    }
}

/// What the bridge does next.
#[derive(Debug)]
pub enum HostAction {
    /// Read the four bytes of the next prefix; the first thing a bridge does.
    ReadHeader,
    /// Read a body of this many bytes.
    ReadBody { length: u32 },
    /// Read this body, which is JSON, as a message.
    Interpret(Vec<u8>),
    /// Send this request to the launcher and report its answer.
    Ask(IpcMessage),
    /// Send this message to the launcher; its answer is of no interest.
    Tell(IpcMessage),
    /// Write this response to the browser.
    Write(NativeMessage),
    /// Leave the loop.
    Stop,
}

/// The content of a [`HostAction`].
pub enum HostActionView {
    ReadHeader,
    ReadBody { length: u32 },
    Interpret(Seq<u8>),
    Ask(IpcMessageView),
    Tell(IpcMessageView),
    Write(NativeMessageView),
    Stop,
}

impl View for HostAction {
    type V = HostActionView;

    open spec fn view(&self) -> HostActionView {
        match *self {
            HostAction::ReadHeader => HostActionView::ReadHeader,
            HostAction::ReadBody { length } => HostActionView::ReadBody { length },
            HostAction::Interpret(body) => HostActionView::Interpret(body@),
            HostAction::Ask(message) => HostActionView::Ask(message@),
            HostAction::Tell(message) => HostActionView::Tell(message@),
            HostAction::Write(message) => HostActionView::Write(message@),
            HostAction::Stop => HostActionView::Stop,
        }
    }
}

/// What follows a prefix: the body is read when the advertised length is
/// allowed, and the loop ends when it is not.
pub open spec fn action_after_header(header: Seq<u8>) -> HostActionView {
    match checked_length(prefix_value(header)) {
        Ok(length) => HostActionView::ReadBody { length },
        Err(_) => HostActionView::Stop,
    }
}

/// What follows a body, once it is known whether it is JSON: a body that is
/// JSON is read as a message, and one that is not is dropped.  The stream
/// is still in step after such a body, because the prefix has said where it
/// ends; so the next prefix is read.
pub open spec fn action_after_body(body: Seq<u8>, json: bool) -> HostActionView {
    match checked_body(body, json) {
        Ok(b) => HostActionView::Interpret(b),
        Err(_) => HostActionView::ReadHeader,
    }
}

/// What follows a message: a command goes to the launcher as a request,
/// a tab list or a verdict goes to the launcher as a notice, and anything
/// else is dropped.
pub open spec fn action_after_inbound(inbound: HostInboundView) -> HostActionView {
    match inbound {
        HostInboundView::Command(command) => HostActionView::Ask(launcher_request(command)),
        _ => match launcher_notice(inbound) {
            Some(notice) => HostActionView::Tell(notice),
            None => HostActionView::ReadHeader,
        },
    }
}

/// The bridge's loop as a rule from where it stands and what happened to
/// what it does next.
///
/// The end of the input, a failed read, a refused prefix and a failed write
/// end the loop; none of them is an error of the bridge.  A body that is not
/// JSON and a message of no known shape are dropped.  The launcher's answer
/// is awaited only after a command; when it comes, the response is written.
/// After a notice and after a written response the next prefix is read.
/// While the launcher's answer is awaited, anything but that answer ends
/// the loop, and a stopped bridge stays stopped.
pub open spec fn host_action(state: HostState, event: HostEventView) -> HostActionView {
    match state {
        HostState::Stopped => HostActionView::Stop,
        HostState::AwaitingLauncher(command) => match event {
            HostEventView::Launcher(reply) => HostActionView::Write(command_response(command, reply)),
            _ => HostActionView::Stop,
        },
        HostState::Reading => match event {
            HostEventView::Header(header) => action_after_header(header),
            HostEventView::Body(body) => action_after_body(body, is_json(body)),
            HostEventView::Inbound(inbound) => action_after_inbound(inbound),
            HostEventView::Told => HostActionView::ReadHeader,
            HostEventView::Written => HostActionView::ReadHeader,
            HostEventView::Launcher(_) => HostActionView::ReadHeader,
            HostEventView::InputClosed => HostActionView::Stop,
            HostEventView::ReadFailed => HostActionView::Stop,
            HostEventView::WriteFailed => HostActionView::Stop,
        },
    }
}

/// Where the bridge stands after an event: it stops when its action is to
/// stop, waits for the launcher after a command, and reads otherwise.
pub open spec fn host_state_after(state: HostState, event: HostEventView) -> HostState {
    if host_action(state, event) is Stop {
        HostState::Stopped
    } else {
        match (state, event) {
            (HostState::Reading, HostEventView::Inbound(HostInboundView::Command(command))) => {
                HostState::AwaitingLauncher(command)
            },
            _ => HostState::Reading,
        }
    }
}

/// What follows a prefix.
pub fn after_header(header: [u8; 4]) -> (r: HostAction)
    ensures
        r@ == action_after_header(header@),
{
    match decode_header(header) {
        Ok(length) => HostAction::ReadBody { length },
        Err(_) => HostAction::Stop,
    }
}

/// What follows a body, once it is known whether it is JSON.
pub fn after_body(body: Vec<u8>, json: bool) -> (r: HostAction)
    ensures
        r@ == action_after_body(body@, json),
{
    match check_body(body, json) {
        Ok(b) => HostAction::Interpret(b),
        Err(_) => HostAction::ReadHeader,
    }
}

/// What follows a message.
pub fn after_inbound(inbound: HostInbound) -> (r: HostAction)
    ensures
        r@ == action_after_inbound(inbound@),
{
    match inbound {
        HostInbound::Command(command) => HostAction::Ask(request_for(command)),
        other => match handle_chrome_response(other) {
            Some(notice) => HostAction::Tell(notice),
            None => HostAction::ReadHeader,
        },
    }
}

/// One turn of the bridge's loop: takes in what happened and returns where
/// the bridge stands and what it does next.
pub fn host_step(state: HostState, event: HostEvent) -> (r: (HostState, HostAction))
    ensures
        r.0 == host_state_after(state, event@),
        r.1@ == host_action(state, event@),
{
    let next = match state {
        HostState::Stopped => (HostState::Stopped, HostAction::Stop),
        HostState::AwaitingLauncher(command) => match event {
            HostEvent::Launcher(reply) => (
                HostState::Reading,
                HostAction::Write(handle_command(command, reply)),
            ),
            _ => (HostState::Stopped, HostAction::Stop),
        },
        HostState::Reading => match event {
            HostEvent::Header(header) => (HostState::Reading, after_header(header)),
            HostEvent::Body(body) => {
                let json = body_is_json(body.as_slice());
                (HostState::Reading, after_body(body, json))
            },
            HostEvent::Inbound(inbound) => {
                let waits_for = match &inbound {
                    HostInbound::Command(command) => HostState::AwaitingLauncher(*command),
                    _ => HostState::Reading,
                };
                (waits_for, after_inbound(inbound))
            },
            HostEvent::Told => (HostState::Reading, HostAction::ReadHeader),
            HostEvent::Written => (HostState::Reading, HostAction::ReadHeader),
            HostEvent::Launcher(_) => (HostState::Reading, HostAction::ReadHeader),
            HostEvent::InputClosed => (HostState::Stopped, HostAction::Stop),
            HostEvent::ReadFailed => (HostState::Stopped, HostAction::Stop),
            HostEvent::WriteFailed => (HostState::Stopped, HostAction::Stop),
        },
    };
    match next.1 {
        HostAction::Stop => (HostState::Stopped, HostAction::Stop),
        action => (next.0, action),
    }
}

/// A prefix that advertises no byte, or more than the browser's ceiling,
/// ends the bridge's loop before any of the body is read.
pub proof fn lemma_refused_prefix_stops(header: Seq<u8>)
    requires
        prefix_value(header) == 0 || prefix_value(header) > crate::framing::MAX_MESSAGE_LEN,
    ensures
        host_action(HostState::Reading, HostEventView::Header(header)) == HostActionView::Stop,
        host_state_after(HostState::Reading, HostEventView::Header(header)) == HostState::Stopped,
{
}

/// A bridge that has stopped stays stopped.
pub proof fn lemma_stopped_is_final(event: HostEventView)
    ensures
        host_action(HostState::Stopped, event) == HostActionView::Stop,
        host_state_after(HostState::Stopped, event) == HostState::Stopped,
{
}

/// From the launcher to the browser: when the browser polls and the bridge
/// passes the poll on, the browser gets the oldest pending command as a
/// directive, and the tab list when no command is pending.
pub proof fn lemma_poll_through_the_bridge(state: crate::engine::native_messaging::TabManagerView)
    ensures
        ({
            let request = launcher_request(NativeCommand::GetTabs);
            let reply = crate::ipc::server_reply(state, request);
            let response = command_response(
                NativeCommand::GetTabs,
                LauncherReplyView::Message(reply->Some_0),
            );
            &&& reply is Some
            &&& state.commands.len() == 0 ==> response == (NativeMessageView::TabList {
                tabs: state.tabs,
            })
            &&& state.commands.len() > 0 ==> match state.commands[0] {
                crate::engine::native_messaging::ChromeCommand::SwitchToTab {
                    tab_id,
                    window_id,
                } => response == (NativeMessageView::SwitchResult {
                    success: true,
                    tab_id: Some(tab_id),
                    error: Some(switch_directive(tab_id, window_id)),
                }),
            }
        }),
{
}

} // verus!
