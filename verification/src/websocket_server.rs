//! The launcher's side of a WebSocket session with the browser extension.
//!
//! A session greets the extension with the current tab list, then answers
//! each request by `id`.  A frame of JSON that has the shape of no message
//! is answered with error 400, and the session stays open.  Between
//! requests a timer ticks; on a tick the
//! session looks at the command queue and, if a command is pending, sends it
//! to the extension as an event.  The session ends with a close frame, a
//! transport error or a failed send, and does not come back: reconnecting is
//! the extension's business.
//!
//! The transport itself is not here.  Whoever owns the socket reports what
//! happened as a [`SessionEvent`] and carries out the [`SessionAction`] that
//! [`session_step`] returns.

use vstd::prelude::*;
use vstd::string::StringExecFns;
use crate::engine::native_messaging::{
    ChromeCommand,
    TabManager,
    TabManagerView,
    queue_after_pop,
    queue_after_push,
    queue_front,
    snapshot_after_replace,
};
use crate::clock::current_millis;
use crate::framing::{body_is_json, is_json};
use crate::ipc::{IpcMessageView, extension_command, poll_reply, server_state_after};
use crate::text::{decimal_digits, str_equal, u64_to_string};
use crate::websocket_types::{
    EventData,
    EventDataView,
    EventType,
    RequestParams,
    RequestParamsView,
    ResponseResult,
    ResponseResultView,
    WebSocketMessage,
    WebSocketMessageView,
    error_response,
    ok_response,
};

verus! {

/// The time between two looks at the command queue, in milliseconds.
pub const TICK_INTERVAL_MS: u64 = 50;

/// The code of the error that answers a request whose parameters are missing
/// or do not have the shape that its method expects, and a frame of JSON
/// that has the shape of no message.
pub const BAD_REQUEST: i32 = 400;

/// The code of the error that answers a request for a method that does not
/// exist.
pub const UNKNOWN_METHOD: i32 = 404;

/// Where the launcher listens for the extension.
#[derive(Debug, Clone, Copy, PartialEq, Eq, Structural)]
pub struct WebSocketServer {
    port: u16,
}

impl WebSocketServer {
    /// A server for the given port of the local host.
    pub fn new(port: u16) -> (r: Self)
        ensures
            r.port_spec() == port,
    {
        WebSocketServer { port }
    }

    /// The port, in contracts.
    pub closed spec fn port_spec(&self) -> u16 {
        self.port
    }

    /// The port.
    pub fn port(&self) -> (r: u16)
        ensures
            r == self.port_spec(),
    {
        self.port
    }

    /// The address to listen on: the local host and the port.
    pub fn bind_address(&self) -> (r: String)
        ensures
            r@ == "127.0.0.1:"@ + decimal_digits(self.port_spec() as nat),
    {
        let mut address = String::from_str("127.0.0.1:");
        let port = u64_to_string(self.port as u64);
        address.append(port.as_str());
        address
    }
}

/// The response to a request, given the launcher's state and the time, in
/// milliseconds since the epoch, at which the request is answered.
///
/// `getTabs` returns the snapshot.  `updateTabs` and `switchToTab` report
/// success when their parameters have the expected shape and error 400 when
/// they are missing or have another shape.  `keepAlive` returns the time.
/// Any other method is answered with error 404 and the method's name.
pub open spec fn response_to(
    state: TabManagerView,
    id: Seq<char>,
    method: Seq<char>,
    params: Option<RequestParamsView>,
    now_millis: i64,
) -> WebSocketMessageView {
    if method == "getTabs"@ {
        ok_response(id, ResponseResultView::Tabs { tabs: state.tabs })
    } else if method == "updateTabs"@ {
        match params {
            Some(p) => match p.update_tabs {
                Some(tabs) => ok_response(id, ResponseResultView::Success { success: true }),
                None => error_response(id, BAD_REQUEST, "Invalid updateTabs params"@),
            },
            None => error_response(id, BAD_REQUEST, "Missing params for updateTabs"@),
        }
    } else if method == "switchToTab"@ {
        match params {
            Some(p) => match p.switch_to_tab {
                Some(target) => ok_response(id, ResponseResultView::Success { success: true }),
                None => error_response(id, BAD_REQUEST, "Invalid switchToTab params"@),
            },
            None => error_response(id, BAD_REQUEST, "Missing params for switchToTab"@),
        }
    } else if method == "keepAlive"@ {
        ok_response(id, ResponseResultView::Pong { timestamp: now_millis })
    } else {
        error_response(id, UNKNOWN_METHOD, "Unknown method: "@ + method)
    }
}

/// What a request leaves of the launcher's state: an accepted `updateTabs`
/// replaces the snapshot, an accepted `switchToTab` adds a command to the
/// queue, and nothing else changes anything.
pub open spec fn state_after_request(
    state: TabManagerView,
    method: Seq<char>,
    params: Option<RequestParamsView>,
) -> TabManagerView {
    if method == "getTabs"@ {
        state
    } else if method == "updateTabs"@ {
        match params {
            Some(p) => match p.update_tabs {
                Some(tabs) => TabManagerView {
                    tabs: snapshot_after_replace(state.tabs, tabs),
                    commands: state.commands,
                },
                None => state,
            },
            None => state,
        }
    } else if method == "switchToTab"@ {
        match params {
            Some(p) => match p.switch_to_tab {
                Some(target) => TabManagerView {
                    tabs: state.tabs,
                    commands: queue_after_push(
                        state.commands,
                        ChromeCommand::SwitchToTab {
                            tab_id: target.tab_id,
                            window_id: target.window_id,
                        },
                    ),
                },
                None => state,
            },
            None => state,
        }
    } else {
        state
    }
}

/// Answers a request at a given time and acts on the launcher's state as
/// the request asks.
pub fn respond(
    id: String,
    method: &str,
    params: Option<RequestParams>,
    tab_manager: &mut TabManager,
    now_millis: i64,
) -> (r: WebSocketMessage)
    ensures
        r@ == response_to(old(tab_manager)@, id@, method@, params.deep_view(), now_millis),
        final(tab_manager)@ == state_after_request(old(tab_manager)@, method@, params.deep_view()),
{
    if str_equal(method, "getTabs") {
        let tabs = tab_manager.get_tabs();
        WebSocketMessage::response_ok(id, ResponseResult::Tabs { tabs })
    } else if str_equal(method, "updateTabs") {
        match params {
            Some(p) => match p.update_tabs {
                Some(tabs) => {
                    tab_manager.update_tabs(tabs);
                    WebSocketMessage::response_ok(id, ResponseResult::Success { success: true })
                },
                None => WebSocketMessage::response_error(
                    id,
                    BAD_REQUEST,
                    String::from_str("Invalid updateTabs params"),
                ),
            },
            None => WebSocketMessage::response_error(
                id,
                BAD_REQUEST,
                String::from_str("Missing params for updateTabs"),
            ),
        }
    } else if str_equal(method, "switchToTab") {
        match params {
            Some(p) => match p.switch_to_tab {
                Some(target) => {
                    tab_manager.queue_command(
                        ChromeCommand::SwitchToTab {
                            tab_id: target.tab_id,
                            window_id: target.window_id,
                        },
                    );
                    WebSocketMessage::response_ok(id, ResponseResult::Success { success: true })
                },
                None => WebSocketMessage::response_error(
                    id,
                    BAD_REQUEST,
                    String::from_str("Invalid switchToTab params"),
                ),
            },
            None => WebSocketMessage::response_error(
                id,
                BAD_REQUEST,
                String::from_str("Missing params for switchToTab"),
            ),
        }
    } else if str_equal(method, "keepAlive") {
        WebSocketMessage::response_ok(id, ResponseResult::Pong { timestamp: now_millis })
    } else {
        let mut message = String::from_str("Unknown method: ");
        message.append(method);
        WebSocketMessage::response_error(id, UNKNOWN_METHOD, message)
    }
}

/// Answers a request now: answers as [`respond`] does at the time that the
/// clock shows.  The clock is read only for `keepAlive`, the one method whose
/// answer holds the time, and the time is not negative.
pub fn handle_request(
    id: String,
    method: &str,
    params: Option<RequestParams>,
    tab_manager: &mut TabManager,
) -> (r: WebSocketMessage)
    ensures
        exists|now_millis: i64|
            now_millis >= 0 && r@ == #[trigger] response_to(
                old(tab_manager)@,
                id@,
                method@,
                params.deep_view(),
                now_millis,
            ),
        final(tab_manager)@ == state_after_request(old(tab_manager)@, method@, params.deep_view()),
{
    let now_millis = if str_equal(method, "keepAlive") {
        current_millis()
    } else {
        0
    };
    respond(id, method, params, tab_manager, now_millis)
}

/// Where a session stands.
#[derive(Debug, Clone, Copy, PartialEq, Eq, Structural)]
pub enum SessionState {
    /// The handshake is done and nothing has been sent yet.
    Connected,
    /// The greeting has gone out; requests are answered and ticks looked at.
    Active,
    /// The session is over.
    Closed,
}

/// What has just happened in a session.
#[derive(Debug)]
pub enum SessionEvent {
    /// The handshake succeeded.
    Opened,
    /// A text frame held a request.
    Request { id: String, method: String, params: Option<RequestParams> },
    /// A text frame held a response or an event, which a server has no use
    /// for.
    NotARequest,
    /// A text frame held nothing that is a message.  `frame` holds its
    /// bytes, and `frame_id` the text of its `id` field, if it is JSON that
    /// has one.
    Unread { frame: Vec<u8>, frame_id: Option<String> },
    /// A binary frame arrived.
    Binary,
    /// A ping frame arrived, with this payload.
    Ping(Vec<u8>),
    /// A pong frame arrived.
    Pong,
    /// A close frame arrived.
    Close,
    /// The transport reported an error.
    Failed,
    /// The stream of frames ended.
    Ended,
    /// The timer ticked.
    Tick,
    /// The last frame that was to be sent could not be sent.
    SendFailed,
}

/// The content of a [`SessionEvent`].
pub enum SessionEventView {
    Opened,
    Request { id: Seq<char>, method: Seq<char>, params: Option<RequestParamsView> },
    NotARequest,
    Unread { frame: Seq<u8>, frame_id: Option<Seq<char>> },
    Binary,
    Ping(Seq<u8>),
    Pong,
    Close,
    Failed,
    Ended,
    Tick,
    SendFailed,
}

impl View for SessionEvent {
    type V = SessionEventView;

    open spec fn view(&self) -> SessionEventView {
        match *self {
            SessionEvent::Opened => SessionEventView::Opened,
            SessionEvent::Request { id, method, params } => SessionEventView::Request {
                id: id@,
                method: method@,
                params: params.deep_view(),
            },
            SessionEvent::NotARequest => SessionEventView::NotARequest,
            SessionEvent::Unread { frame, frame_id } => SessionEventView::Unread {
                frame: frame@,
                frame_id: frame_id.deep_view(),
            },
            SessionEvent::Binary => SessionEventView::Binary,
            SessionEvent::Ping(payload) => SessionEventView::Ping(payload@),
            SessionEvent::Pong => SessionEventView::Pong,
            SessionEvent::Close => SessionEventView::Close,
            SessionEvent::Failed => SessionEventView::Failed,
            SessionEvent::Ended => SessionEventView::Ended,
            SessionEvent::Tick => SessionEventView::Tick,
            SessionEvent::SendFailed => SessionEventView::SendFailed,
        }
    }
}

/// What a session does next.
#[derive(Debug)]
pub enum SessionAction {
    /// Send the greeting.  A greeting that cannot be sent is not reported as
    /// [`SessionEvent::SendFailed`]; the next read tells whether the
    /// connection still stands.
    Greet(WebSocketMessage),
    /// Send this message as a text frame.
    Send(WebSocketMessage),
    /// Send a pong frame with this payload.
    SendPong(Vec<u8>),
    /// Send nothing and wait for the next event.
    Continue,
    /// Leave the session loop.
    Stop,
}

/// The content of a [`SessionAction`].
pub enum SessionActionView {
    Greet(WebSocketMessageView),
    Send(WebSocketMessageView),
    SendPong(Seq<u8>),
    Continue,
    Stop,
}

impl View for SessionAction {
    type V = SessionActionView;

    open spec fn view(&self) -> SessionActionView {
        match *self {
            SessionAction::Greet(message) => SessionActionView::Greet(message@),
            SessionAction::Send(message) => SessionActionView::Send(message@),
            SessionAction::SendPong(payload) => SessionActionView::SendPong(payload@),
            SessionAction::Continue => SessionActionView::Continue,
            SessionAction::Stop => SessionActionView::Stop,
        }
    }
}

/// The greeting: an event with the whole snapshot.
pub open spec fn greeting(state: TabManagerView) -> WebSocketMessageView {
    WebSocketMessageView::Event {
        event: EventType::TabsUpdated,
        data: EventDataView::TabsUpdate { tabs: state.tabs },
    }
}

/// The event that delivers a queued command to the extension.
pub open spec fn switch_event(command: ChromeCommand) -> WebSocketMessageView {
    match command {
        ChromeCommand::SwitchToTab { tab_id, window_id } => WebSocketMessageView::Event {
            event: EventType::TabSwitchRequested,
            data: EventDataView::TabSwitch { tab_id, window_id },
        },
    }
}

/// Whether an event ends the session.
pub open spec fn ends_session(event: SessionEventView) -> bool {
    event is Close || event is Failed || event is Ended || event is SendFailed
}

/// Where a session stands after an event: a closed session stays closed, an
/// ending event closes it, and anything else leaves or makes it active.
pub open spec fn session_state_after(state: SessionState, event: SessionEventView) -> SessionState {
    if state == SessionState::Closed || ends_session(event) {
        SessionState::Closed
    } else {
        SessionState::Active
    }
}

/// The answer to a text frame that holds nothing that is a message, once it
/// is known whether the frame is JSON.  JSON of no known shape is answered
/// with error 400, under the `id` that the frame carries and under the empty
/// `id` if it carries none.  A frame that is not JSON has no answer.
pub open spec fn answer_to_unread(id: Option<Seq<char>>, json: bool) -> SessionActionView {
    if json {
        SessionActionView::Send(
            error_response(
                match id {
                    Some(text) => text,
                    None => Seq::empty(),
                },
                BAD_REQUEST,
                "Unrecognized message"@,
            ),
        )
    } else {
        SessionActionView::Continue
    }
}

/// What a session does after an event.  A closed session does nothing any
/// more.  A request is answered.  A text frame that holds no message is
/// answered with error 400 when it is JSON, and passed over when it is not.
/// Responses, events, binary frames and pongs are passed over, a ping is
/// answered with a pong of the same payload, and a tick delivers the oldest
/// pending command, if there is one.
pub open spec fn session_action(
    state: SessionState,
    shared: TabManagerView,
    event: SessionEventView,
    now_millis: i64,
) -> SessionActionView {
    if state == SessionState::Closed || ends_session(event) {
        SessionActionView::Stop
    } else {
        match event {
            SessionEventView::Opened => SessionActionView::Greet(greeting(shared)),
            SessionEventView::Request { id, method, params } => SessionActionView::Send(
                response_to(shared, id, method, params, now_millis),
            ),
            SessionEventView::Unread { frame, frame_id } => answer_to_unread(
                frame_id,
                is_json(frame),
            ),
            SessionEventView::Ping(payload) => SessionActionView::SendPong(payload),
            SessionEventView::Tick => match queue_front(shared.commands) {
                Some(command) => SessionActionView::Send(switch_event(command)),
                None => SessionActionView::Continue,
            },
            _ => SessionActionView::Continue,
        }
    }
}

/// What an event leaves of the launcher's state: a request acts on it as
/// its method asks, a tick takes the delivered command off the queue, and a
/// closed session touches nothing.
pub open spec fn shared_state_after(
    state: SessionState,
    shared: TabManagerView,
    event: SessionEventView,
) -> TabManagerView {
    if state == SessionState::Closed {
        shared
    } else {
        match event {
            SessionEventView::Request { id, method, params } => state_after_request(
                shared,
                method,
                params,
            ),
            SessionEventView::Tick => TabManagerView {
                tabs: shared.tabs,
                commands: queue_after_pop(shared.commands),
            },
            _ => shared,
        }
    }
}

/// The event that delivers a queued command to the extension.
pub fn switch_event_for(command: ChromeCommand) -> (r: WebSocketMessage)
    ensures
        r@ == switch_event(command),
{
    match command {
        ChromeCommand::SwitchToTab { tab_id, window_id } => WebSocketMessage::event(
            EventType::TabSwitchRequested,
            EventData::TabSwitch { tab_id, window_id },
        ),
    }
}

/// The answer to a text frame that holds nothing that is a message, once it
/// is known whether the frame is JSON.
pub fn answer_unread(id: Option<String>, json: bool) -> (r: SessionAction)
    ensures
        r@ == answer_to_unread(id.deep_view(), json),
{
    if json {
        let id = match id {
            Some(text) => text,
            None => String::new(),
        };
        SessionAction::Send(
            WebSocketMessage::response_error(
                id,
                BAD_REQUEST,
                String::from_str("Unrecognized message"),
            ),
        )
    } else {
        SessionAction::Continue
    }
}

/// One turn of a session at a given time: takes in what happened, acts on
/// the launcher's state, and returns where the session stands and what it
/// does next.
pub fn session_step_at(
    state: SessionState,
    event: SessionEvent,
    tab_manager: &mut TabManager,
    now_millis: i64,
) -> (r: (SessionState, SessionAction))
    ensures
        r.0 == session_state_after(state, event@),
        r.1@ == session_action(state, old(tab_manager)@, event@, now_millis),
        final(tab_manager)@ == shared_state_after(state, old(tab_manager)@, event@),
{
    match state {
        SessionState::Closed => (SessionState::Closed, SessionAction::Stop),
        _ => match event {
            SessionEvent::Opened => {
                let tabs = tab_manager.get_tabs();
                let hello = WebSocketMessage::event(
                    EventType::TabsUpdated,
                    EventData::TabsUpdate { tabs },
                );
                (SessionState::Active, SessionAction::Greet(hello))
            },
            SessionEvent::Request { id, method, params } => {
                let answer = respond(id, method.as_str(), params, tab_manager, now_millis);
                (SessionState::Active, SessionAction::Send(answer))
            },
            SessionEvent::NotARequest => (SessionState::Active, SessionAction::Continue),
            SessionEvent::Unread { frame, frame_id } => {
                let json = body_is_json(frame.as_slice());
                (SessionState::Active, answer_unread(frame_id, json))
            },
            SessionEvent::Binary => (SessionState::Active, SessionAction::Continue),
            SessionEvent::Ping(payload) => (SessionState::Active, SessionAction::SendPong(payload)),
            SessionEvent::Pong => (SessionState::Active, SessionAction::Continue),
            SessionEvent::Close => (SessionState::Closed, SessionAction::Stop),
            SessionEvent::Failed => (SessionState::Closed, SessionAction::Stop),
            SessionEvent::Ended => (SessionState::Closed, SessionAction::Stop),
            SessionEvent::Tick => match tab_manager.pop_command() {
                Some(command) => (
                    SessionState::Active,
                    SessionAction::Send(switch_event_for(command)),
                ),
                None => (SessionState::Active, SessionAction::Continue),
            },
            SessionEvent::SendFailed => (SessionState::Closed, SessionAction::Stop),
        },
    }
}

/// One turn of a session now: does what [`session_step_at`] does at the
/// time that the clock shows.  The clock is read only for a `keepAlive`
/// request to a session that is not closed, and the time is not negative.
pub fn session_step(state: SessionState, event: SessionEvent, tab_manager: &mut TabManager) -> (r: (
    SessionState,
    SessionAction,
))
    ensures
        r.0 == session_state_after(state, event@),
        exists|now_millis: i64|
            now_millis >= 0 && r.1@ == #[trigger] session_action(
                state,
                old(tab_manager)@,
                event@,
                now_millis,
            ),
        final(tab_manager)@ == shared_state_after(state, old(tab_manager)@, event@),
{
    let asks_the_time = match (&state, &event) {
        (SessionState::Closed, _) => false,
        (_, SessionEvent::Request { id, method, params }) => str_equal(
            method.as_str(),
            "keepAlive",
        ),
        _ => false,
    };
    let now_millis = if asks_the_time {
        current_millis()
    } else {
        0
    };
    session_step_at(state, event, tab_manager, now_millis)
}

/// A session that is closed stays closed and leaves the launcher's state
/// alone, whatever is reported to it.
pub proof fn lemma_closed_is_final(shared: TabManagerView, event: SessionEventView, now_millis: i64)
    ensures
        session_state_after(SessionState::Closed, event) == SessionState::Closed,
        session_action(SessionState::Closed, shared, event, now_millis) == SessionActionView::Stop,
        shared_state_after(SessionState::Closed, shared, event) == shared,
{
}

/// A command that one session delivers on a tick is gone from the queue: the
/// next tick, of this session or of another, delivers the command that was
/// queued after it, or nothing.
pub proof fn lemma_tick_delivers_once(shared: TabManagerView, now_millis: i64)
    requires
        shared.commands.len() > 0,
    ensures
        session_action(SessionState::Active, shared, SessionEventView::Tick, now_millis)
            == SessionActionView::Send(switch_event(shared.commands[0])),
        shared_state_after(SessionState::Active, shared, SessionEventView::Tick).commands
            == shared.commands.drop_first(),
{
}

/// One state behind every transport: a command that the extension queues
/// with `switchToTab` on a WebSocket is what the bridge's next poll on the
/// pipe delivers when nothing was queued before it, and it waits behind what
/// was.
pub proof fn lemma_queued_command_reaches_the_pipe(
    shared: TabManagerView,
    target: crate::websocket_types::SwitchTarget,
)
    ensures
        ({
            let params = Some(
                RequestParamsView { update_tabs: None, switch_to_tab: Some(target) },
            );
            let queued = state_after_request(shared, "switchToTab"@, params);
            let command = ChromeCommand::SwitchToTab {
                tab_id: target.tab_id,
                window_id: target.window_id,
            };
            &&& queued.tabs == shared.tabs
            &&& queued.commands == shared.commands.push(command)
            &&& shared.commands.len() == 0 ==> poll_reply(queued) == (
            IpcMessageView::ChromeCommand { command: extension_command(command) })
            &&& shared.commands.len() > 0 ==> poll_reply(queued) == poll_reply(shared)
        }),
{
    reveal_strlit("switchToTab");
    reveal_strlit("getTabs");
    reveal_strlit("updateTabs");
    assert("switchToTab"@.len() == 11 && "getTabs"@.len() == 7 && "updateTabs"@.len() == 10);
}

/// Exactly one consumer: a command that a session has delivered on a tick
/// is not what the pipe delivers afterwards, and a command that the pipe has
/// delivered is not what a session delivers afterwards.  Whoever polls next
/// gets the command behind it, or none.
pub proof fn lemma_one_consumer_per_command(shared: TabManagerView, now_millis: i64)
    requires
        shared.commands.len() > 0,
    ensures
        ({
            let after_tick = shared_state_after(
                SessionState::Active,
                shared,
                SessionEventView::Tick,
            );
            let after_poll = server_state_after(shared, IpcMessageView::GetTabs);
            &&& after_tick.commands == shared.commands.drop_first()
            &&& after_poll.commands == shared.commands.drop_first()
            &&& queue_front(after_tick.commands) == (if shared.commands.len() > 1 {
                Some(shared.commands[1])
            } else {
                None
            })
            &&& session_action(SessionState::Active, after_poll, SessionEventView::Tick, now_millis)
                == (if shared.commands.len() > 1 {
                SessionActionView::Send(switch_event(shared.commands[1]))
            } else {
                SessionActionView::Continue
            })
        }),
{
}

/// A snapshot that the extension pushes with `updateTabs` is what the next
/// poll on the pipe returns when no command is pending.
pub proof fn lemma_pushed_tabs_reach_the_pipe(shared: TabManagerView, tabs: Seq<crate::engine::native_messaging::TabView>)
    requires
        shared.commands.len() == 0,
    ensures
        ({
            let params = Some(RequestParamsView { update_tabs: Some(tabs), switch_to_tab: None });
            let pushed = state_after_request(shared, "updateTabs"@, params);
            poll_reply(pushed) == (IpcMessageView::TabList { tabs })
        }),
{
    reveal_strlit("getTabs");
    reveal_strlit("updateTabs");
    assert("getTabs"@.len() == 7 && "updateTabs"@.len() == 10);
}

/// A frame of JSON that has the shape of no message is answered with error
/// 400 and changes nothing: the session stays open, and the snapshot and the
/// queue stay as they were.
pub proof fn lemma_unknown_shape_is_answered(
    shared: TabManagerView,
    frame: Seq<u8>,
    id: Option<Seq<char>>,
    now_millis: i64,
)
    requires
        is_json(frame),
    ensures
        ({
            let event = SessionEventView::Unread { frame, frame_id: id };
            &&& session_action(SessionState::Active, shared, event, now_millis) matches SessionActionView::Send(
                WebSocketMessageView::Response { id: answered, result, error },
            ) && result is None && error is Some && error->Some_0.code == 400 && (id is Some
                ==> answered == id->Some_0)
            &&& session_state_after(SessionState::Active, event) == SessionState::Active
            &&& shared_state_after(SessionState::Active, shared, event) == shared
        }),
{
}

/// One state behind every transport: a command that the bridge queues with
/// a switch request on the pipe is what the next poller gets when nothing
/// was queued before it, whether that poller is a session's tick or the
/// pipe's own poll.
pub proof fn lemma_pipe_switch_reaches_every_poller(
    shared: TabManagerView,
    tab_id: i32,
    window_id: i32,
    now_millis: i64,
)
    requires
        shared.commands.len() == 0,
    ensures
        ({
            let command = ChromeCommand::SwitchToTab { tab_id, window_id };
            let queued = server_state_after(
                shared,
                IpcMessageView::SwitchToTab { tab_id, window_id },
            );
            &&& queued.tabs == shared.tabs
            &&& queued.commands == seq![command]
            &&& session_action(SessionState::Active, queued, SessionEventView::Tick, now_millis)
                == SessionActionView::Send(switch_event(command))
            &&& poll_reply(queued) == (IpcMessageView::ChromeCommand {
                command: extension_command(command),
            })
        }),
{
}

} // verus!
