//! Windows of the desktop as the launcher sees them, and the interface by
//! which a platform lists them and brings one to the front.

use vstd::prelude::*;
use crate::text::{contains_ignore_case, contains_lowercase, to_lowercase};

verus! {

/// One top-level window.
#[derive(Debug, PartialEq)]
pub struct WindowInfo {
    pub hwnd: isize,
    pub title: String,
    pub class_name: String,
    pub process_name: String,
    pub is_visible: bool,
    pub is_minimized: bool,
    /// Left, top, width, height.
    pub rect: (i32, i32, i32, i32),
}

/// The content of a [`WindowInfo`].
pub struct WindowInfoView {
    pub hwnd: isize,
    pub title: Seq<char>,
    pub class_name: Seq<char>,
    pub process_name: Seq<char>,
    pub is_visible: bool,
    pub is_minimized: bool,
    pub rect: (i32, i32, i32, i32),
}

impl View for WindowInfo {
    type V = WindowInfoView;

    open spec fn view(&self) -> WindowInfoView {
        WindowInfoView {
            hwnd: self.hwnd,
            title: self.title@,
            class_name: self.class_name@,
            process_name: self.process_name@,
            is_visible: self.is_visible,
            is_minimized: self.is_minimized,
            rect: self.rect,
        }
    }
}

impl DeepView for WindowInfo {
    type V = WindowInfoView;

    open spec fn deep_view(&self) -> WindowInfoView {
        self@
    }
}

impl Clone for WindowInfo {
    fn clone(&self) -> (r: Self)
        ensures
            r == *self,
    {
        WindowInfo {
            hwnd: self.hwnd,
            title: self.title.clone(),
            class_name: self.class_name.clone(),
            process_name: self.process_name.clone(),
            is_visible: self.is_visible,
            is_minimized: self.is_minimized,
            rect: self.rect,
        }
    }
}

/// Whether a window answers a query: the query, with case ignored, occurs in
/// the window's title, in the name of its process or in the name of its
/// class.
pub open spec fn window_contains_text(window: WindowInfoView, query: Seq<char>) -> bool {
    contains_ignore_case(window.title, query) || contains_ignore_case(window.process_name, query)
        || contains_ignore_case(window.class_name, query)
}

impl WindowInfo {
    /// Whether `query`, with case ignored, occurs in the title, the process
    /// name or the class name.
    pub fn contains_text(&self, query: &str) -> (r: bool)
        ensures
            r == window_contains_text(self@, query@),
    {
        let query_lower = to_lowercase(query);
        contains_lowercase(self.title.as_str(), query_lower.as_str()) || contains_lowercase(
            self.process_name.as_str(),
            query_lower.as_str(),
        ) || contains_lowercase(self.class_name.as_str(), query_lower.as_str())
    }
}

/// What a platform offers the launcher: the list of its windows, and a way
/// to bring one of them to the front.
///
/// The list is whatever the desktop holds when it is asked for, so nothing
/// is promised of it, and two calls may differ.
pub trait WindowManager {
    /// The windows that are open now.
    fn enumerate_windows(&self) -> Vec<WindowInfo>;

    /// Brings the window with this handle to the front.
    fn switch_to_window(&self, hwnd: isize);
}

/// The window manager of a platform without a window list: it has no
/// windows to show and none to switch to.
#[derive(Debug, Clone, Copy, PartialEq, Eq, Structural)]
pub struct WindowsApiManager;

impl WindowsApiManager {
    pub fn new() -> (r: Self) {
        WindowsApiManager
    }
}

impl WindowManager for WindowsApiManager {
    fn enumerate_windows(&self) -> (r: Vec<WindowInfo>)
        ensures
            r@.len() == 0,
    {
        crate::windows_api::enumerate_windows()
    }

    fn switch_to_window(&self, hwnd: isize) {
        crate::windows_api::switch_to_window(hwnd)
    }
}

} // verus!
