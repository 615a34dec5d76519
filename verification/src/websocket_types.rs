//! The messages of a WebSocket session between the launcher and the browser
//! extension: requests, the responses that answer them by `id`, and events
//! that the launcher sends unasked.

use vstd::prelude::*;
use crate::engine::native_messaging::{ChromeTab, TabView};

verus! {

/// The tab and window that a `switchToTab` request names.
#[derive(Debug, Clone, Copy, PartialEq, Eq, Structural)]
pub struct SwitchTarget {
    pub tab_id: i32,
    pub window_id: i32,
}

/// The parameters of a request, read in each of the two shapes that a method
/// may ask for.  A field is `None` when the parameters do not have its shape.
#[derive(Debug)]
pub struct RequestParams {
    /// The tab list, when the parameters have the shape of `updateTabs`.
    pub update_tabs: Option<Vec<ChromeTab>>,
    /// The target, when the parameters have the shape of `switchToTab`.
    pub switch_to_tab: Option<SwitchTarget>,
}

/// The content of [`RequestParams`].
pub struct RequestParamsView {
    pub update_tabs: Option<Seq<TabView>>,
    pub switch_to_tab: Option<SwitchTarget>,
}

impl View for RequestParams {
    type V = RequestParamsView;

    open spec fn view(&self) -> RequestParamsView {
        RequestParamsView {
            update_tabs: self.update_tabs.deep_view(),
            switch_to_tab: self.switch_to_tab,
        }
    }
}

impl DeepView for RequestParams {
    type V = RequestParamsView;

    open spec fn deep_view(&self) -> RequestParamsView {
        self@
    }
}

/// What a successful response carries.
#[derive(Debug)]
pub enum ResponseResult {
    Tabs { tabs: Vec<ChromeTab> },
    Success { success: bool },
    Pong { timestamp: i64 },
}

/// The content of a [`ResponseResult`].
pub enum ResponseResultView {
    Tabs { tabs: Seq<TabView> },
    Success { success: bool },
    Pong { timestamp: i64 },
}

impl View for ResponseResult {
    type V = ResponseResultView;

    open spec fn view(&self) -> ResponseResultView {
        match *self {
            ResponseResult::Tabs { tabs } => ResponseResultView::Tabs { tabs: tabs.deep_view() },
            ResponseResult::Success { success } => ResponseResultView::Success { success },
            ResponseResult::Pong { timestamp } => ResponseResultView::Pong { timestamp },
        }
    }
}

impl DeepView for ResponseResult {
    type V = ResponseResultView;

    open spec fn deep_view(&self) -> ResponseResultView {
        self@
    }
}

/// What a failed response carries.
#[derive(Debug)]
pub struct ErrorInfo {
    pub code: i32,
    pub message: String,
}

/// The content of an [`ErrorInfo`].
pub struct ErrorInfoView {
    pub code: i32,
    pub message: Seq<char>,
}

impl View for ErrorInfo {
    type V = ErrorInfoView;

    open spec fn view(&self) -> ErrorInfoView {
        ErrorInfoView { code: self.code, message: self.message@ }
    }
}

impl DeepView for ErrorInfo {
    type V = ErrorInfoView;

    open spec fn deep_view(&self) -> ErrorInfoView {
        self@
    }
}

/// The kinds of event.
#[derive(Debug, Clone, Copy, PartialEq, Eq, Structural)]
pub enum EventType {
    TabSwitchRequested,
    TabsUpdated,
}

/// What an event carries.
#[derive(Debug)]
pub enum EventData {
    TabSwitch { tab_id: i32, window_id: i32 },
    TabsUpdate { tabs: Vec<ChromeTab> },
}

/// The content of an [`EventData`].
pub enum EventDataView {
    TabSwitch { tab_id: i32, window_id: i32 },
    TabsUpdate { tabs: Seq<TabView> },
}

impl View for EventData {
    type V = EventDataView;

    open spec fn view(&self) -> EventDataView {
        match *self {
            EventData::TabSwitch { tab_id, window_id } => EventDataView::TabSwitch {
                tab_id,
                window_id,
            },
            EventData::TabsUpdate { tabs } => EventDataView::TabsUpdate { tabs: tabs.deep_view() },
        }
    }
}

/// A message of a WebSocket session.
#[derive(Debug)]
pub enum WebSocketMessage {
    Request { id: String, method: String, params: Option<RequestParams> },
    Response { id: String, result: Option<ResponseResult>, error: Option<ErrorInfo> },
    Event { event: EventType, data: EventData },
}

/// The content of a [`WebSocketMessage`].
pub enum WebSocketMessageView {
    Request { id: Seq<char>, method: Seq<char>, params: Option<RequestParamsView> },
    Response { id: Seq<char>, result: Option<ResponseResultView>, error: Option<ErrorInfoView> },
    Event { event: EventType, data: EventDataView },
}

impl View for WebSocketMessage {
    type V = WebSocketMessageView;

    open spec fn view(&self) -> WebSocketMessageView {
        match *self {
            WebSocketMessage::Request { id, method, params } => WebSocketMessageView::Request {
                id: id@,
                method: method@,
                params: params.deep_view(),
            },
            WebSocketMessage::Response { id, result, error } => WebSocketMessageView::Response {
                id: id@,
                result: result.deep_view(),
                error: error.deep_view(),
            },
            WebSocketMessage::Event { event, data } => WebSocketMessageView::Event {
                event,
                data: data@,
            },
        }
    }
}

/// The response that reports success.
pub open spec fn ok_response(id: Seq<char>, result: ResponseResultView) -> WebSocketMessageView {
    WebSocketMessageView::Response { id, result: Some(result), error: None }
}

/// The response that reports failure.
pub open spec fn error_response(id: Seq<char>, code: i32, message: Seq<char>) -> WebSocketMessageView {
    WebSocketMessageView::Response {
        id,
        result: None,
        error: Some(ErrorInfoView { code, message }),
    }
}

impl WebSocketMessage {
    /// A request.
    pub fn request(id: String, method: String, params: Option<RequestParams>) -> (r: Self)
        ensures
            r@ == (WebSocketMessageView::Request {
                id: id@,
                method: method@,
                params: params.deep_view(),
            }),
    {
        WebSocketMessage::Request { id, method, params }
    }

    /// The response that answers request `id` with a result and no error.
    pub fn response_ok(id: String, result: ResponseResult) -> (r: Self)
        ensures
            r@ == ok_response(id@, result@),
    {
        WebSocketMessage::Response { id, result: Some(result), error: None }
    }

    /// The response that answers request `id` with an error and no result.
    pub fn response_error(id: String, code: i32, message: String) -> (r: Self)
        ensures
            r@ == error_response(id@, code, message@),
    {
        WebSocketMessage::Response { id, result: None, error: Some(ErrorInfo { code, message }) }
    }

    /// An event.
    pub fn event(event: EventType, data: EventData) -> (r: Self)
        ensures
            r@ == (WebSocketMessageView::Event { event, data: data@ }),
    {
        WebSocketMessage::Event { event, data }
    }
}

} // verus!
