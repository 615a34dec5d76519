use my_launcher::data::window_item::WindowItem;
use my_launcher::data::window_provider::{WindowProvider, WindowsApiProvider};
use my_launcher::engine::WindowInfo;
use my_launcher::filter::Searchable;
use my_launcher::ui::alt_tab_grid::GridItem;

fn create_test_window() -> WindowItem {
    WindowItem {
        hwnd: 12345,
        title: "Test Window - Notepad".to_string(),
        process_name: "notepad.exe".to_string(),
        class_name: "Notepad".to_string(),
        is_visible: true,
        is_minimized: false,
        rect: (100, 200, 800, 600),
    }
}

#[test]
fn test_window_item_creation() {
    let window = WindowItem::new(
        100,
        "Test".to_string(),
        "test.exe".to_string(),
        "TestClass".to_string(),
    );

    assert_eq!(window.hwnd, 100);
    assert_eq!(window.title, "Test");
    assert_eq!(window.process_name, "test.exe");
    assert_eq!(window.class_name, "TestClass");
    assert!(window.is_visible);
    assert!(!window.is_minimized);
    assert_eq!(window.rect, (0, 0, 0, 0));
}

#[test]
fn test_window_item_is_valid() {
    let mut window = create_test_window();

    assert!(window.is_valid());

    window.is_visible = false;
    assert!(!window.is_valid());

    window.is_visible = true;
    window.title = "".to_string();
    assert!(!window.is_valid());

    window.title = "   ".to_string();
    assert!(!window.is_valid());
}

#[test]
fn test_grid_item_implementation() {
    let window = create_test_window();

    assert_eq!(window.title(), "Test Window - Notepad");
    assert_eq!(window.description(), "notepad.exe");
    assert_eq!(window.hwnd(), 12345);
    assert_eq!(window.id(), "window_12345");
}

#[test]
fn test_searchable_implementation() {
    let window = create_test_window();
    let fields = window.search_fields();

    assert_eq!(fields.len(), 3);
    assert_eq!(fields[0], ("title", "Test Window - Notepad"));
    assert_eq!(fields[1], ("process_name", "notepad.exe"));
    assert_eq!(fields[2], ("class_name", "Notepad"));
}

#[test]
fn test_window_item_clone() {
    let window1 = create_test_window();
    let window2 = window1.clone();

    assert_eq!(window1.hwnd, window2.hwnd);
    assert_eq!(window1.title, window2.title);
    assert_eq!(window1.process_name, window2.process_name);
}

struct MockWindowProvider {
    windows: Vec<WindowItem>,
    focus_called: std::cell::RefCell<Vec<isize>>,
}

impl MockWindowProvider {
    fn new(windows: Vec<WindowItem>) -> Self {
        Self {
            windows,
            focus_called: std::cell::RefCell::new(Vec::new()),
        }
    }
}

impl WindowProvider for MockWindowProvider {
    fn get_windows(&self) -> Vec<WindowItem> {
        self.windows.clone()
    }

    fn refresh(&mut self) {}

    fn focus_window(&self, hwnd: isize) -> Result<(), String> {
        self.focus_called.borrow_mut().push(hwnd);
        Ok(())
    }
}

#[test]
fn test_window_provider_trait() {
    let windows = vec![
        WindowItem::new(
            1,
            "Window 1".to_string(),
            "app1.exe".to_string(),
            "Class1".to_string(),
        ),
        WindowItem::new(
            2,
            "Window 2".to_string(),
            "app2.exe".to_string(),
            "Class2".to_string(),
        ),
    ];

    let provider = MockWindowProvider::new(windows.clone());

    let retrieved = provider.get_windows();
    assert_eq!(retrieved.len(), 2);
    assert_eq!(retrieved[0].title, "Window 1");
    assert_eq!(retrieved[1].title, "Window 2");

    assert!(provider.focus_window(1).is_ok());
    assert!(provider.focus_window(2).is_ok());

    let called = provider.focus_called.borrow();
    assert_eq!(*called, vec![1, 2]);
}

#[test]
fn test_windows_api_provider_creation() {
    let provider = WindowsApiProvider::new();
    assert_eq!(provider.get_windows().len(), 0);
}

#[test]
fn test_windows_api_provider_convert_window_info() {
    let provider = WindowsApiProvider::new();
    let info = WindowInfo {
        hwnd: 12345,
        title: "Test Window".to_string(),
        class_name: "TestClass".to_string(),
        process_name: "test.exe".to_string(),
        is_visible: true,
        is_minimized: false,
        rect: (10, 20, 300, 400),
    };

    let item = provider.convert_window_info(&info);

    assert_eq!(item.hwnd, 12345);
    assert_eq!(item.title, "Test Window");
    assert_eq!(item.class_name, "TestClass");
    assert_eq!(item.process_name, "test.exe");
    assert_eq!(item.is_visible, true);
    assert_eq!(item.is_minimized, false);
    assert_eq!(item.rect, (10, 20, 300, 400));
}

#[test]
fn test_windows_api_provider_refresh_non_windows() {
    let mut provider = WindowsApiProvider::new();
    provider.refresh();

    let windows = provider.get_windows();
    assert_eq!(windows.len(), 3);
    assert_eq!(windows[0].title, "Test Window 1");
    assert_eq!(windows[1].title, "Test Window 2");
    assert_eq!(windows[2].title, "Test Window 3");
}

#[test]
fn refresh_from_keeps_the_listable_windows_in_order() {
    let mut provider = WindowsApiProvider::new();
    let report = vec![
        WindowInfo {
            hwnd: 1,
            title: "First".to_string(),
            class_name: "A".to_string(),
            process_name: "a.exe".to_string(),
            is_visible: true,
            is_minimized: false,
            rect: (1, 2, 3, 4),
        },
        WindowInfo {
            hwnd: 2,
            title: " \t ".to_string(),
            class_name: "B".to_string(),
            process_name: "b.exe".to_string(),
            is_visible: true,
            is_minimized: false,
            rect: (0, 0, 0, 0),
        },
        WindowInfo {
            hwnd: 3,
            title: "Hidden".to_string(),
            class_name: "C".to_string(),
            process_name: "c.exe".to_string(),
            is_visible: false,
            is_minimized: false,
            rect: (0, 0, 0, 0),
        },
        WindowInfo {
            hwnd: 4,
            title: "Last".to_string(),
            class_name: "D".to_string(),
            process_name: "d.exe".to_string(),
            is_visible: true,
            is_minimized: true,
            rect: (5, 6, 7, 8),
        },
    ];
    provider.refresh_from(&report);
    let windows = provider.get_windows();
    assert_eq!(windows.len(), 2);
    assert_eq!(windows[0].hwnd, 1);
    assert_eq!(windows[0].rect, (1, 2, 3, 4));
    assert_eq!(windows[1].hwnd, 4);
    assert!(windows[1].is_minimized);
    assert!(provider.focus_window(4).is_ok());
}
