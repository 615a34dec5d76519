use my_launcher::engine::search_engine::DefaultSearchEngine;
use my_launcher::engine::{Action, ResultType, SearchEngine, SearchMode, WindowInfo};
use my_launcher::ui::alt_tab_grid::GridItem;

fn create_test_windows() -> Vec<WindowInfo> {
    vec![
        WindowInfo {
            hwnd: 1,
            title: "Visual Studio Code".to_string(),
            class_name: "Chrome_WidgetWin_1".to_string(),
            process_name: "Code.exe".to_string(),
            is_visible: true,
            is_minimized: false,
            rect: (0, 0, 1920, 1080),
        },
        WindowInfo {
            hwnd: 2,
            title: "Google Chrome".to_string(),
            class_name: "Chrome_WidgetWin_1".to_string(),
            process_name: "chrome.exe".to_string(),
            is_visible: true,
            is_minimized: false,
            rect: (0, 0, 1920, 1080),
        },
        WindowInfo {
            hwnd: 3,
            title: "Notepad".to_string(),
            class_name: "Notepad".to_string(),
            process_name: "notepad.exe".to_string(),
            is_visible: true,
            is_minimized: true,
            rect: (100, 100, 800, 600),
        },
    ]
}

#[test]
fn test_empty_search_browser_mode() {
    let engine = DefaultSearchEngine::new();
    let windows = create_test_windows();
    let results = engine.search("", SearchMode::Browser, &windows);
    assert!(results.is_empty());
}

#[test]
fn test_empty_search_windows_mode() {
    let engine = DefaultSearchEngine::new();
    let windows = create_test_windows();
    let results = engine.search("", SearchMode::Windows, &windows);
    assert_eq!(results.len(), 3);
    assert_eq!(results[0].title, "Visual Studio Code");
}

#[test]
fn test_window_search_in_windows_mode() {
    let engine = DefaultSearchEngine::new();
    let windows = create_test_windows();

    let results = engine.search("code", SearchMode::Windows, &windows);
    assert_eq!(results.len(), 1);
    assert_eq!(results[0].title, "Visual Studio Code");
}

#[test]
fn test_window_search_case_insensitive() {
    let engine = DefaultSearchEngine::new();
    let windows = create_test_windows();

    let results = engine.search("NOTEPAD", SearchMode::Windows, &windows);
    assert_eq!(results.len(), 1);
    assert_eq!(results[0].title, "Notepad");
}

#[test]
fn test_window_search_by_process_name() {
    let engine = DefaultSearchEngine::new();
    let windows = create_test_windows();

    let results = engine.search("exe", SearchMode::Windows, &windows);
    assert_eq!(results.len(), 3);
}

#[test]
fn test_search_results_limit() {
    let engine = DefaultSearchEngine::new();
    let mut windows = Vec::new();

    for i in 0..15 {
        windows.push(WindowInfo {
            hwnd: i,
            title: format!("Window {}", i),
            class_name: "TestClass".to_string(),
            process_name: "test.exe".to_string(),
            is_visible: true,
            is_minimized: false,
            rect: (0, 0, 100, 100),
        });
    }

    let results = engine.search("Window", SearchMode::Windows, &windows);
    assert_eq!(results.len(), 10);
}

#[test]
fn test_browser_search_mode() {
    let engine = DefaultSearchEngine::new();
    let windows = create_test_windows();

    let results = engine.search("rust programming", SearchMode::Browser, &windows);
    assert_eq!(results.len(), 1);
    assert_eq!(results[0].title, "Google: rust programming");
    assert_eq!(results[0].description, "Search on Google");
    assert_eq!(
        results[0].action,
        Action::GoogleSearch("rust programming".to_string())
    );
    assert_eq!(results[0].result_type, ResultType::GoogleSearch);
    assert!(results[0].window_info.is_none());
}

#[test]
fn test_browser_search_japanese() {
    let engine = DefaultSearchEngine::new();
    let windows = create_test_windows();

    let results = engine.search("日本語検索", SearchMode::Browser, &windows);
    assert_eq!(results.len(), 1);
    assert_eq!(results[0].title, "Google: 日本語検索");
    assert_eq!(
        results[0].action,
        Action::GoogleSearch("日本語検索".to_string())
    );
    assert_eq!(results[0].result_type, ResultType::GoogleSearch);
}

#[test]
fn test_window_info_contains_text() {
    let window = WindowInfo {
        hwnd: 1,
        title: "Visual Studio Code".to_string(),
        class_name: "Chrome_WidgetWin_1".to_string(),
        process_name: "Code.exe".to_string(),
        is_visible: true,
        is_minimized: false,
        rect: (0, 0, 1920, 1080),
    };

    assert!(window.contains_text("visual"));
    assert!(window.contains_text("STUDIO"));
    assert!(window.contains_text("code"));
    assert!(window.contains_text("Chrome"));
    assert!(window.contains_text(".exe"));
    assert!(!window.contains_text("notepad"));
}

#[test]
fn window_results_keep_order_and_describe_the_window() {
    let engine = DefaultSearchEngine::new();
    let windows = create_test_windows();

    let results = engine.search("chrome", SearchMode::Windows, &windows);
    assert_eq!(results.len(), 2);
    assert_eq!(results[0].title, "Visual Studio Code");
    assert_eq!(results[0].description, "Code.exe - Chrome_WidgetWin_1");
    assert_eq!(results[0].action, Action::SwitchWindow(1));
    assert_eq!(results[0].result_type, ResultType::Window);
    assert_eq!(results[0].window_info, Some(windows[0].clone()));
    assert_eq!(results[1].title, "Google Chrome");
    assert_eq!(results[1].action, Action::SwitchWindow(2));
    assert!(engine.is_window_search("chrome", SearchMode::Windows));
    assert!(!engine.is_window_search("chrome", SearchMode::Browser));
}

#[test]
fn empty_query_lists_every_window_without_a_limit() {
    let engine = DefaultSearchEngine::new();
    let mut windows = Vec::new();
    for i in 0..15 {
        windows.push(WindowInfo {
            hwnd: i,
            title: format!("Window {}", i),
            class_name: "TestClass".to_string(),
            process_name: "test.exe".to_string(),
            is_visible: true,
            is_minimized: false,
            rect: (0, 0, 100, 100),
        });
    }
    let results = engine.search("", SearchMode::Windows, &windows);
    assert_eq!(results.len(), 15);
    let limited = engine.search("window", SearchMode::Windows, &windows);
    assert_eq!(limited.len(), 10);
    assert_eq!(limited[9].title, "Window 9");
}

#[test]
fn results_are_items_of_a_grid() {
    let engine = DefaultSearchEngine::new();
    let windows = create_test_windows();
    let results = engine.search("notepad", SearchMode::Windows, &windows);
    assert_eq!(GridItem::title(&results[0]), "Notepad");
    assert_eq!(GridItem::description(&results[0]), "notepad.exe - Notepad");
    assert_eq!(results[0].hwnd(), 3);
    assert_eq!(results[0].id(), "3");
    let results = engine.search("rust", SearchMode::Browser, &windows);
    assert_eq!(results[0].hwnd(), 0);
    assert_eq!(results[0].id(), "google:rust");
    let bookmark = my_launcher::engine::SearchResult {
        title: "B".to_string(),
        description: "d".to_string(),
        action: Action::OpenBookmark("https://b.example".to_string()),
        window_info: None,
        result_type: ResultType::Bookmark,
    };
    assert_eq!(bookmark.id(), "bookmark:https://b.example");
    let visit = my_launcher::engine::SearchResult {
        title: "H".to_string(),
        description: "d".to_string(),
        action: Action::OpenHistory("https://h.example".to_string()),
        window_info: Some(windows[0].clone()),
        result_type: ResultType::History,
    };
    assert_eq!(visit.id(), "history:https://h.example");
    assert_eq!(visit.hwnd(), 1);
    let switch = my_launcher::engine::SearchResult {
        title: "W".to_string(),
        description: "d".to_string(),
        action: Action::SwitchWindow(-5),
        window_info: None,
        result_type: ResultType::Window,
    };
    assert_eq!(switch.id(), "-5");
}
