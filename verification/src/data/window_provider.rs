//! Where the window switcher gets its windows from.

use vstd::prelude::*;
use vstd::string::StringExecFns;
use crate::data::window_item::{WindowItem, WindowItemView, is_listable};
use crate::engine::window_manager::{WindowInfo, WindowInfoView};

verus! {

/// A source of windows for the window switcher.
pub trait WindowProvider {
    /// The windows that were found by the last refresh.
    fn get_windows(&self) -> Vec<WindowItem>;

    /// Looks for windows anew.
    fn refresh(&mut self);

    /// Brings the window with this handle to the front.
    fn focus_window(&self, hwnd: isize) -> Result<(), String>;
}

/// The window switcher's form of a window of the desktop: the same window,
/// field by field.
pub open spec fn item_of(info: WindowInfoView) -> WindowItemView {
    WindowItemView {
        hwnd: info.hwnd,
        title: info.title,
        process_name: info.process_name,
        class_name: info.class_name,
        is_visible: info.is_visible,
        is_minimized: info.is_minimized,
        rect: info.rect,
    }
}

/// The windows that the switcher lists of those that the desktop reports:
/// the ones that are visible and have a title that is not blank, in the
/// order of the report.
pub open spec fn listed_windows(infos: Seq<WindowInfoView>) -> Seq<WindowItemView> {
    infos.map_values(|info: WindowInfoView| item_of(info)).filter(
        |item: WindowItemView| is_listable(item),
    )
}

/// A sample window: visible, not minimized, of class `TestClass`.
pub open spec fn sample_window(
    hwnd: isize,
    title: Seq<char>,
    process_name: Seq<char>,
) -> WindowItemView {
    WindowItemView {
        hwnd,
        title,
        process_name,
        class_name: "TestClass"@,
        is_visible: true,
        is_minimized: false,
        rect: (0i32, 0i32, 0i32, 0i32),
    }
}

/// The three windows that stand in for the desktop where there is none to
/// ask.
pub open spec fn sample_windows() -> Seq<WindowItemView> {
    seq![
        sample_window(1, "Test Window 1"@, "test.exe"@),
        sample_window(2, "Test Window 2"@, "test2.exe"@),
        sample_window(3, "Test Window 3"@, "test3.exe"@),
    ]
}

/// The provider that keeps the list of the last refresh.
#[derive(Debug)]
pub struct WindowsApiProvider {
    cached_windows: Vec<WindowItem>,
}

impl View for WindowsApiProvider {
    type V = Seq<WindowItemView>;

    closed spec fn view(&self) -> Seq<WindowItemView> {
        self.cached_windows.deep_view()
    }
}

impl WindowsApiProvider {
    /// A provider that has not looked for windows yet.
    pub fn new() -> (r: Self)
        ensures
            r@ == Seq::<WindowItemView>::empty(),
    {
        let r = WindowsApiProvider { cached_windows: Vec::new() };
        r
    }

    /// The window switcher's form of a window of the desktop.
    pub fn convert_window_info(&self, info: &WindowInfo) -> (r: WindowItem)
        ensures
            r@ == item_of(info@),
    {
        WindowItem {
            hwnd: info.hwnd,
            title: info.title.clone(),
            process_name: info.process_name.clone(),
            class_name: info.class_name.clone(),
            is_visible: info.is_visible,
            is_minimized: info.is_minimized,
            rect: info.rect,
        }
    }

    /// Takes a report of the desktop as the new list: every window of the
    /// report that is visible and has a title that is not blank.
    pub fn refresh_from(&mut self, windows: &[WindowInfo])
        ensures
            final(self)@ == listed_windows(windows.deep_view()),
    {
        let ghost infos = windows.deep_view();
        let ghost convert = |info: WindowInfoView| item_of(info);
        let ghost listable = |item: WindowItemView| is_listable(item);
        let mut kept: Vec<WindowItem> = Vec::new();
        let mut i: usize = 0;
        assert(infos.take(0).map_values(convert).filter(listable) =~= Seq::<
            WindowItemView,
        >::empty()) by {
            reveal(Seq::filter);
        }
        while i < windows.len()
            invariant
                i <= windows.len(),
                infos == windows.deep_view(),
                convert == (|info: WindowInfoView| item_of(info)),
                listable == (|item: WindowItemView| is_listable(item)),
                kept.deep_view() == infos.take(i as int).map_values(convert).filter(listable),
            decreases windows.len() - i,
        {
            let item = self.convert_window_info(&windows[i]);
            proof {
                let before = infos.take(i as int).map_values(convert);
                assert(infos.take(i + 1).map_values(convert) =~= before.push(item@));
                before.lemma_filter_push(item@, listable);
            }
            if item.is_valid() {
                let ghost before = kept.deep_view();
                kept.push(item);
            }
            i += 1;
        }
        assert(infos.take(i as int) =~= infos);
        self.cached_windows = kept;
    }
}

impl WindowProvider for WindowsApiProvider {
    /// A copy of the list.
    fn get_windows(&self) -> (r: Vec<WindowItem>)
        ensures
            r.deep_view() == self@,
    {
        let r = self.cached_windows.clone();
        r
    }

    /// Takes the sample windows as the new list.  A program that can ask
    /// the desktop hands its report to
    /// [`refresh_from`](WindowsApiProvider::refresh_from) instead.
    fn refresh(&mut self)
        ensures
            final(self)@ == sample_windows(),
    {
        let mut windows: Vec<WindowItem> = Vec::new();
        windows.push(
            WindowItem::new(
                1,
                String::from_str("Test Window 1"),
                String::from_str("test.exe"),
                String::from_str("TestClass"),
            ),
        );
        windows.push(
            WindowItem::new(
                2,
                String::from_str("Test Window 2"),
                String::from_str("test2.exe"),
                String::from_str("TestClass"),
            ),
        );
        windows.push(
            WindowItem::new(
                3,
                String::from_str("Test Window 3"),
                String::from_str("test3.exe"),
                String::from_str("TestClass"),
            ),
        );
        self.cached_windows = windows;
    }

    /// Hands the switch to the platform, which has nothing to switch to
    /// where it has no window list.
    fn focus_window(&self, hwnd: isize) -> (r: Result<(), String>)
        ensures
            r is Ok,
    {
        crate::windows_api::switch_to_window(hwnd);
        Ok(())
    }
}

impl Default for WindowsApiProvider {
    fn default() -> (r: Self)
        ensures
            r@ == Seq::<WindowItemView>::empty(),
    {
        Self::new()
    }
}

} // verus!
