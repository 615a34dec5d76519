//! A window as the window switcher lists it.

use vstd::prelude::*;
use vstd::string::StringExecFns;
use crate::filter::search_filter::Searchable;
use crate::text::{decimal, i64_to_string, trim, trimmed};
use crate::ui::alt_tab_grid::GridItem;

verus! {

/// A window of the desktop.
#[derive(Debug)]
pub struct WindowItem {
    pub hwnd: isize,
    pub title: String,
    pub process_name: String,
    pub class_name: String,
    pub is_visible: bool,
    pub is_minimized: bool,
    /// Left, top, width, height.
    pub rect: (i32, i32, i32, i32),
}

/// The content of a [`WindowItem`].
pub struct WindowItemView {
    pub hwnd: isize,
    pub title: Seq<char>,
    pub process_name: Seq<char>,
    pub class_name: Seq<char>,
    pub is_visible: bool,
    pub is_minimized: bool,
    pub rect: (i32, i32, i32, i32),
}

impl View for WindowItem {
    type V = WindowItemView;

    open spec fn view(&self) -> WindowItemView {
        WindowItemView {
            hwnd: self.hwnd,
            title: self.title@,
            process_name: self.process_name@,
            class_name: self.class_name@,
            is_visible: self.is_visible,
            is_minimized: self.is_minimized,
            rect: self.rect,
        }
    }
}

impl DeepView for WindowItem {
    type V = WindowItemView;

    open spec fn deep_view(&self) -> WindowItemView {
        self@
    }
}

impl Clone for WindowItem {
    fn clone(&self) -> (r: Self)
        ensures
            r == *self,
    {
        WindowItem {
            hwnd: self.hwnd,
            title: self.title.clone(),
            process_name: self.process_name.clone(),
            class_name: self.class_name.clone(),
            is_visible: self.is_visible,
            is_minimized: self.is_minimized,
            rect: self.rect,
        }
    }
}

/// Whether a window is worth listing: it is visible and its title holds
/// more than whitespace.
pub open spec fn is_listable(window: WindowItemView) -> bool {
    trimmed(window.title).len() > 0 && window.is_visible
}

/// The text that names a window in a grid.
pub open spec fn window_id(hwnd: isize) -> Seq<char> {
    "window_"@ + decimal(hwnd as int)
}

/// The fields by which a window is searched: title, process name and class
/// name, in this order.
pub open spec fn window_fields(window: WindowItemView) -> Seq<(Seq<char>, Seq<char>)> {
    seq![
        ("title"@, window.title),
        ("process_name"@, window.process_name),
        ("class_name"@, window.class_name),
    ]
}

impl WindowItem {
    /// A visible window that is not minimized and has no place on the
    /// screen yet.
    pub fn new(hwnd: isize, title: String, process_name: String, class_name: String) -> (r: Self)
        ensures
            r@ == (WindowItemView {
                hwnd,
                title: title@,
                process_name: process_name@,
                class_name: class_name@,
                is_visible: true,
                is_minimized: false,
                rect: (0i32, 0i32, 0i32, 0i32),
            }),
    {
        WindowItem {
            hwnd,
            title,
            process_name,
            class_name,
            is_visible: true,
            is_minimized: false,
            rect: (0, 0, 0, 0),
        }
    }

    /// Whether the window is visible and has a title that is not blank.
    pub fn is_valid(&self) -> (r: bool)
        ensures
            r == is_listable(self@),
    {
        !trim(self.title.as_str()).is_empty() && self.is_visible
    }
}

impl GridItem for WindowItem {
    fn title(&self) -> (r: &str)
        ensures
            r@ == self@.title,
    {
        self.title.as_str()
    }

    fn description(&self) -> (r: &str)
        ensures
            r@ == self@.process_name,
    {
        self.process_name.as_str()
    }

    fn hwnd(&self) -> (r: isize)
        ensures
            r == self@.hwnd,
    {
        self.hwnd
    }

    fn id(&self) -> (r: String)
        ensures
            r@ == window_id(self@.hwnd),
    {
        let mut id = String::from_str("window_");
        let number = i64_to_string(self.hwnd as i64);
        id.append(number.as_str());
        id
    }
}

impl Searchable for WindowItem {
    fn search_fields(&self) -> (r: Vec<(&str, &str)>)
        ensures
            r.deep_view() == window_fields(self@),
    {
        let mut fields: Vec<(&str, &str)> = Vec::new();
        fields.push(("title", self.title.as_str()));
        fields.push(("process_name", self.process_name.as_str()));
        fields.push(("class_name", self.class_name.as_str()));
        fields
    }
}

} // verus!
