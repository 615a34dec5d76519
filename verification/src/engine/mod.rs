pub mod browser_search_engine;
pub mod launcher;
pub mod native_messaging;
pub mod search_engine;
pub mod window_manager;

pub use browser_search_engine::BrowserSearchEngine;
pub use launcher::LauncherCore;
pub use native_messaging::{ChromeTab, TabManager};
pub use search_engine::{Action, ResultType, SearchEngine, SearchMode, SearchResult};
pub use window_manager::{WindowInfo, WindowManager};
