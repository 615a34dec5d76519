use my_launcher::engine::search_engine::DefaultSearchEngine;
use my_launcher::engine::{Action, LauncherCore, SearchMode, WindowInfo, WindowManager};
use std::sync::{Arc, Mutex};

struct MockWindowManager {
    windows: Arc<Mutex<Vec<WindowInfo>>>,
    switched_to: Arc<Mutex<Option<isize>>>,
}

impl MockWindowManager {
    fn new(windows: Vec<WindowInfo>) -> Self {
        Self {
            windows: Arc::new(Mutex::new(windows)),
            switched_to: Arc::new(Mutex::new(None)),
        }
    }

    fn get_switched_window(&self) -> Option<isize> {
        *self.switched_to.lock().unwrap()
    }

    fn set_windows(&self, windows: Vec<WindowInfo>) {
        *self.windows.lock().unwrap() = windows;
    }
}

impl WindowManager for MockWindowManager {
    fn enumerate_windows(&self) -> Vec<WindowInfo> {
        self.windows.lock().unwrap().clone()
    }

    fn switch_to_window(&self, hwnd: isize) {
        *self.switched_to.lock().unwrap() = Some(hwnd);
    }
}

fn create_test_launcher() -> (
    LauncherCore<DefaultSearchEngine, MockWindowManager>,
    Arc<MockWindowManager>,
) {
    let windows = vec![
        WindowInfo {
            hwnd: 1,
            title: "Test Editor".to_string(),
            class_name: "EditorClass".to_string(),
            process_name: "editor.exe".to_string(),
            is_visible: true,
            is_minimized: false,
            rect: (0, 0, 800, 600),
        },
        WindowInfo {
            hwnd: 2,
            title: "Browser".to_string(),
            class_name: "BrowserClass".to_string(),
            process_name: "browser.exe".to_string(),
            is_visible: true,
            is_minimized: true,
            rect: (100, 100, 1024, 768),
        },
    ];

    let window_manager = Arc::new(MockWindowManager::new(windows));
    let search_engine = DefaultSearchEngine::new();
    let launcher = LauncherCore::new(search_engine, window_manager.clone());

    (launcher, window_manager)
}

#[test]
fn test_launcher_initialization() {
    let (launcher, _) = create_test_launcher();
    assert_eq!(launcher.get_cached_windows().len(), 2);
}

#[test]
fn test_launcher_search_browser_mode() {
    let (launcher, _) = create_test_launcher();

    let results = launcher.search("test", SearchMode::Browser);
    assert_eq!(results.len(), 1);
    assert_eq!(results[0].title, "Google: test");
    assert_eq!(results[0].action, Action::GoogleSearch("test".to_string()));
}

#[test]
fn test_launcher_search_windows_mode() {
    let (launcher, _) = create_test_launcher();

    let results = launcher.search("editor", SearchMode::Windows);
    assert_eq!(results.len(), 1);
    assert_eq!(results[0].title, "Test Editor");
}

#[test]
fn test_launcher_execute_switch_window() {
    let (launcher, window_manager) = create_test_launcher();

    launcher.execute_action(&Action::SwitchWindow(42));
    assert_eq!(window_manager.get_switched_window(), Some(42));
}

#[test]
fn test_launcher_refresh_windows() {
    let (mut launcher, window_manager) = create_test_launcher();

    assert_eq!(launcher.get_cached_windows().len(), 2);

    let new_windows = vec![WindowInfo {
        hwnd: 3,
        title: "New Window".to_string(),
        class_name: "NewClass".to_string(),
        process_name: "new.exe".to_string(),
        is_visible: true,
        is_minimized: false,
        rect: (0, 0, 640, 480),
    }];
    window_manager.set_windows(new_windows);

    launcher.refresh_windows();
    assert_eq!(launcher.get_cached_windows().len(), 1);
    assert_eq!(launcher.get_cached_windows()[0].title, "New Window");
}

#[test]
fn test_mock_window_manager() {
    let windows = vec![WindowInfo {
        hwnd: 1,
        title: "Test Window".to_string(),
        class_name: "TestClass".to_string(),
        process_name: "test.exe".to_string(),
        is_visible: true,
        is_minimized: false,
        rect: (0, 0, 100, 100),
    }];

    let manager = MockWindowManager::new(windows.clone());

    let enumerated = manager.enumerate_windows();
    assert_eq!(enumerated.len(), 1);
    assert_eq!(enumerated[0].title, "Test Window");

    manager.switch_to_window(123);
    assert_eq!(manager.get_switched_window(), Some(123));
}

fn setup_test_launcher() -> (
    LauncherCore<DefaultSearchEngine, MockWindowManager>,
    Arc<MockWindowManager>,
) {
    let test_windows = vec![
        WindowInfo {
            hwnd: 100,
            title: "Visual Studio Code - my_project".to_string(),
            class_name: "Chrome_WidgetWin_1".to_string(),
            process_name: "Code.exe".to_string(),
            is_visible: true,
            is_minimized: false,
            rect: (0, 0, 1920, 1080),
        },
        WindowInfo {
            hwnd: 200,
            title: "Mozilla Firefox".to_string(),
            class_name: "MozillaWindowClass".to_string(),
            process_name: "firefox.exe".to_string(),
            is_visible: true,
            is_minimized: false,
            rect: (100, 100, 1600, 900),
        },
        WindowInfo {
            hwnd: 300,
            title: "Command Prompt".to_string(),
            class_name: "ConsoleWindowClass".to_string(),
            process_name: "cmd.exe".to_string(),
            is_visible: true,
            is_minimized: true,
            rect: (200, 200, 800, 600),
        },
    ];

    let window_manager = Arc::new(MockWindowManager::new(test_windows));
    let search_engine = DefaultSearchEngine::new();
    let launcher = LauncherCore::new(search_engine, window_manager.clone());

    (launcher, window_manager)
}

#[test]
fn test_window_switching_workflow() {
    let (launcher, window_manager) = setup_test_launcher();

    let results = launcher.search("firefox", SearchMode::Windows);
    assert_eq!(results.len(), 1);
    assert_eq!(results[0].title, "Mozilla Firefox");

    launcher.execute_action(&results[0].action);

    assert_eq!(window_manager.get_switched_window(), Some(200));
}

#[test]
fn test_case_insensitive_window_search() {
    let (launcher, _) = setup_test_launcher();

    let test_cases = vec!["COMMAND", "command", "CoMmAnD", "prompt", "PROMPT"];

    for query in test_cases {
        let results = launcher.search(query, SearchMode::Windows);
        assert!(
            results.iter().any(|r| r.title == "Command Prompt"),
            "Failed to find 'Command Prompt' with query '{}'",
            query
        );
    }
}

#[test]
fn test_search_by_process_name() {
    let (launcher, _) = setup_test_launcher();

    let results = launcher.search("Code.exe", SearchMode::Windows);
    assert_eq!(results.len(), 1);
    assert!(results[0].title.contains("Visual Studio Code"));

    let results = launcher.search(".exe", SearchMode::Windows);
    assert_eq!(results.len(), 3);
}

#[test]
fn test_window_refresh() {
    let (mut launcher, window_manager) = setup_test_launcher();

    assert_eq!(launcher.get_cached_windows().len(), 3);

    window_manager.set_windows(vec![WindowInfo {
        hwnd: 400,
        title: "New Window".to_string(),
        class_name: "NewClass".to_string(),
        process_name: "new.exe".to_string(),
        is_visible: true,
        is_minimized: false,
        rect: (0, 0, 800, 600),
    }]);

    launcher.refresh_windows();

    assert_eq!(launcher.get_cached_windows().len(), 1);
    assert_eq!(launcher.get_cached_windows()[0].title, "New Window");
}

#[test]
fn execute_action_returns_the_url_to_open() {
    let (launcher, window_manager) = create_test_launcher();

    let url = launcher.execute_action(&Action::GoogleSearch("rust programming".to_string()));
    assert_eq!(
        url,
        Some("https://www.google.com/search?q=rust%20programming".to_string())
    );
    let url = launcher.execute_action(&Action::GoogleSearch("a-b_c.d~e/?&=é".to_string()));
    assert_eq!(
        url,
        Some("https://www.google.com/search?q=a-b_c.d~e%2F%3F%26%3D%C3%A9".to_string())
    );
    let url = launcher.execute_action(&Action::OpenBookmark("https://example.org/".to_string()));
    assert_eq!(url, Some("https://example.org/".to_string()));
    let url = launcher.execute_action(&Action::OpenHistory("https://example.org/h".to_string()));
    assert_eq!(url, Some("https://example.org/h".to_string()));
    assert_eq!(window_manager.get_switched_window(), None);

    assert_eq!(launcher.execute_action(&Action::SwitchWindow(7)), None);
    assert_eq!(window_manager.get_switched_window(), Some(7));
}
