use my_launcher::data::tab_item::TabItem;
use my_launcher::data::tab_provider::{tab_items_from, ChromeTabProvider, TabProvider};
use my_launcher::engine::native_messaging::{ChromeCommand, ChromeTab, TabManager};
use my_launcher::engine::window_manager::WindowsApiManager;
use my_launcher::engine::WindowManager;
use my_launcher::filter::{search_items, SearchFilter, Searchable};
use my_launcher::text::{
    chars_of, contains, contains_lowercase, find_first, find_last, i64_to_string, str_equal,
    u64_to_string,
};
use my_launcher::ui::alt_tab_grid::{AltTabGrid, GridKey, DEFAULT_COLUMNS, MAX_TITLE_CHARS};
use my_launcher::ui::browser_list::{
    BrowserList, ListKey, INITIAL_VISIBLE_ITEMS, ITEMS_PER_BATCH, MAX_QUERY_CHARS,
};
use my_launcher::window_thumbnail::ThumbnailCache;
use my_launcher::windows_api::{enumerate_windows, switch_to_window};

fn tab(id: i32, title: &str, url: &str) -> ChromeTab {
    ChromeTab {
        id,
        window_id: 3,
        title: title.to_string(),
        url: url.to_string(),
        fav_icon_url: String::new(),
        active: id == 1,
        index: id,
    }
}

fn after(selected: usize, columns: usize, count: usize, key: GridKey) -> usize {
    let mut grid = AltTabGrid::new();
    grid.selected_index = selected;
    grid.columns = columns;
    grid.handle_keyboard_navigation(key, count);
    assert_eq!(grid.columns, columns);
    grid.selected_index
}

#[test]
fn grid_selection_moves_with_the_keys() {
    let grid = AltTabGrid::new();
    assert_eq!((grid.selected_index, grid.columns), (0, 5));
    assert_eq!(DEFAULT_COLUMNS, 5);
    assert_eq!(after(0, 5, 12, GridKey::Right), 1);
    assert_eq!(after(11, 5, 12, GridKey::Right), 0);
    assert_eq!(after(0, 5, 12, GridKey::Left), 11);
    assert_eq!(after(4, 5, 12, GridKey::Left), 3);
    assert_eq!(after(1, 5, 12, GridKey::Down), 6);
    assert_eq!(after(6, 5, 12, GridKey::Down), 11);
    assert_eq!(after(7, 5, 12, GridKey::Down), 7);
    assert_eq!(after(11, 5, 12, GridKey::Down), 11);
    assert_eq!(after(6, 5, 12, GridKey::Up), 1);
    assert_eq!(after(4, 5, 12, GridKey::Up), 4);
    assert_eq!(after(5, 5, 12, GridKey::Up), 0);
    assert_eq!(after(7, 5, 12, GridKey::Home), 0);
    assert_eq!(after(7, 5, 12, GridKey::End), 11);
    assert_eq!(after(0, 5, 1, GridKey::Right), 0);
    assert_eq!(after(0, 5, 1, GridKey::Left), 0);
}

#[test]
fn grid_selection_copes_with_odd_states() {
    for key in [GridKey::Right, GridKey::Left, GridKey::Down, GridKey::Up, GridKey::Home, GridKey::End] {
        assert_eq!(after(3, 5, 0, key), 3);
    }
    assert_eq!(after(usize::MAX, 5, 12, GridKey::Right), ((usize::MAX % 12) + 1) % 12);
    assert_eq!(after(usize::MAX, 5, 12, GridKey::Down), usize::MAX);
    assert_eq!(after(20, 5, 12, GridKey::Right), 9);
    assert_eq!(after(3, usize::MAX, 12, GridKey::Down), 3);
    assert_eq!(after(3, 0, 12, GridKey::Down), 3);
    assert_eq!(after(3, 0, 12, GridKey::Up), 3);
}

#[test]
fn grid_lays_items_out_row_after_row() {
    let grid = AltTabGrid::new();
    assert_eq!(grid.cell_of(0), (0, 0));
    assert_eq!(grid.cell_of(4), (0, 4));
    assert_eq!(grid.cell_of(5), (1, 0));
    assert_eq!(grid.cell_of(13), (2, 3));
    assert_eq!(grid.rows_for(0), 0);
    assert_eq!(grid.rows_for(1), 1);
    assert_eq!(grid.rows_for(5), 1);
    assert_eq!(grid.rows_for(6), 2);
    assert_eq!(grid.rows_for(usize::MAX - 1), (usize::MAX - 1) / 5 + 1);
    assert_eq!(grid.rows_for(usize::MAX), usize::MAX / 5);
}

#[test]
fn grid_cuts_long_titles() {
    let grid = AltTabGrid::new();
    assert_eq!(MAX_TITLE_CHARS, 25);
    assert_eq!(grid.truncate_text("short", 25), "short");
    assert_eq!(grid.truncate_text("1234567890123456789012345", 25), "1234567890123456789012345");
    assert_eq!(grid.truncate_text("12345678901234567890123456", 25), "1234567890123456789012...");
    assert_eq!(grid.truncate_text("日本語のとても長いウィンドウのタイトルです、ほんとうに", 10), "日本語のとても...");
    assert_eq!(grid.truncate_text("abcd", 3), "...");
    assert_eq!(grid.truncate_text("", 3), "");
    assert_eq!(grid.truncate_text("ab", 2), "ab");
    assert_eq!(grid.truncate_text("", 0), "");
}

#[test]
fn list_shows_more_as_the_selection_nears_the_end() {
    let mut list = BrowserList::new();
    assert_eq!(list.selected_index, 0);
    assert_eq!(list.visible_items(), 20);
    assert_eq!((INITIAL_VISIBLE_ITEMS, ITEMS_PER_BATCH), (20, 10));
    assert_eq!(list.render(100), 20);
    assert_eq!(list.render(7), 7);
    assert_eq!(list.render(0), 0);
    for _ in 0..14 {
        list.handle_keyboard(ListKey::Down, 100);
    }
    assert_eq!(list.selected_index, 14);
    assert_eq!(list.visible_items(), 20);
    list.handle_keyboard(ListKey::Down, 100);
    assert_eq!(list.selected_index, 15);
    assert_eq!(list.visible_items(), 30);
    assert_eq!(list.render(100), 30);
    list.selected_index = 26;
    assert_eq!(list.render(33), 33);
    assert_eq!(list.visible_items(), 33);
    assert_eq!(list.render(33), 33);
}

#[test]
fn list_selection_moves_with_the_keys() {
    let mut list = BrowserList::new();
    list.handle_keyboard(ListKey::Up, 3);
    assert_eq!(list.selected_index, 0);
    list.handle_keyboard(ListKey::Down, 3);
    list.handle_keyboard(ListKey::Down, 3);
    assert_eq!(list.selected_index, 2);
    list.handle_keyboard(ListKey::Down, 3);
    assert_eq!(list.selected_index, 2);
    list.handle_keyboard(ListKey::Up, 3);
    assert_eq!(list.selected_index, 1);
    list.handle_keyboard(ListKey::End, 50);
    assert_eq!(list.selected_index, 49);
    assert_eq!(list.visible_items(), 50);
    list.handle_keyboard(ListKey::Home, 50);
    assert_eq!(list.selected_index, 0);
    assert_eq!(list.visible_items(), 50);
    list.handle_keyboard(ListKey::End, 0);
    assert_eq!(list.selected_index, 0);
    list.handle_keyboard(ListKey::Down, 0);
    assert_eq!(list.selected_index, 0);
    list.selected_index = 9;
    list.reset_for_new_search();
    assert_eq!(list.selected_index, 0);
    assert_eq!(list.visible_items(), 20);
}

#[test]
fn tab_item_shows_its_tab() {
    let item = TabItem::new(tab(1, "Title", "https://url.example"));
    assert_eq!(item.get_display_name(), "Title");
    assert_eq!(item.get_url(), "https://url.example");
    assert_eq!(item.get_id(), 1);
    assert_eq!(item.get_window_id(), 3);
    assert!(item.is_active());
    assert_eq!(item.search_fields(), vec![("title", "Title"), ("url", "https://url.example")]);
    let untitled = TabItem::new(tab(2, "", "https://url.example"));
    assert_eq!(untitled.get_display_name(), "https://url.example");
    assert!(!untitled.is_active());
    assert_eq!(untitled.clone().tab.id, 2);
}

#[test]
fn tab_provider_serves_its_manager() {
    let mut provider = ChromeTabProvider::new();
    assert!(provider.get_tabs().is_empty());
    provider.update_tabs(vec![tab(1, "Rust", "https://rust-lang.org"), tab(2, "News", "https://news.example")]);
    let tabs = provider.get_tabs();
    assert_eq!(tabs.len(), 2);
    assert_eq!(tabs[1].get_display_name(), "News");
    let found = provider.search_tabs("RUST");
    assert_eq!(found.len(), 1);
    assert_eq!(found[0].get_id(), 1);
    assert_eq!(provider.get_tab_manager().get_tabs().len(), 2);

    let mut manager = TabManager::new();
    manager.update_tabs(vec![tab(7, "Seven", "u")]);
    manager.queue_command(ChromeCommand::SwitchToTab { tab_id: 7, window_id: 3 });
    let provider = ChromeTabProvider::new_with_tab_manager(manager);
    assert_eq!(provider.get_tabs()[0].get_id(), 7);
    assert_eq!(tab_items_from(vec![tab(4, "a", "b"), tab(5, "c", "d")])[1].get_id(), 5);
}

#[test]
fn tab_items_can_be_searched_by_field() {
    let items = vec![
        TabItem::new(tab(1, "Rust", "https://example.org")),
        TabItem::new(tab(2, "Other", "https://rust-lang.org")),
        TabItem::new(tab(3, "None", "https://example.com")),
    ];
    let by_title = SearchFilter::new("RUST").with_fields(vec!["title".to_string()]);
    let found = search_items(items, &by_title);
    assert_eq!(found.len(), 1);
    assert_eq!(found[0].get_id(), 1);
    assert!(by_title.targets("title"));
    assert!(!by_title.targets("url"));
    assert!(SearchFilter::new("x").targets("anything"));
    let fields = vec![("url", "https://Rust-lang.org"), ("title", "Other")];
    assert!(!by_title.matches_fields(&fields));
    assert!(SearchFilter::new("rust").matches_fields(&fields));
    assert!(SearchFilter::new("").with_fields(vec!["none".to_string()]).matches_fields(&fields));
    assert!(!SearchFilter::new("rust").matches_fields(&vec![]));
}

#[test]
fn platform_without_windows_lists_none() {
    assert!(enumerate_windows().is_empty());
    switch_to_window(42);
    let manager = WindowsApiManager::new();
    assert!(manager.enumerate_windows().is_empty());
    manager.switch_to_window(42);
}

#[test]
fn numbers_are_written_in_decimal() {
    assert_eq!(u64_to_string(0), "0");
    assert_eq!(u64_to_string(9), "9");
    assert_eq!(u64_to_string(10), "10");
    assert_eq!(u64_to_string(1234567890), "1234567890");
    assert_eq!(u64_to_string(u64::MAX), "18446744073709551615");
    assert_eq!(i64_to_string(0), "0");
    assert_eq!(i64_to_string(-1), "-1");
    assert_eq!(i64_to_string(-120), "-120");
    assert_eq!(i64_to_string(i64::MAX), "9223372036854775807");
    assert_eq!(i64_to_string(i64::MIN), "-9223372036854775808");
}

#[test]
fn text_is_compared_by_its_characters() {
    assert!(str_equal("", ""));
    assert!(str_equal("getTabs", "getTabs"));
    assert!(!str_equal("getTabs", "gettabs"));
    assert!(!str_equal("a", "ab"));
    assert!(contains_lowercase("Visual Studio", "studio"));
    assert!(contains_lowercase("ÄÖÜ", "äö"));
    assert!(contains_lowercase("anything", ""));
    assert!(!contains_lowercase("Visual Studio", "STUDIO"));
    assert!(!contains_lowercase("", "x"));
}

#[test]
fn long_queries_are_cut_for_display() {
    assert_eq!(MAX_QUERY_CHARS, 50);
    let short = "https://a.example/path?x=1 (visited 3 times, 2 hours ago)";
    assert_eq!(BrowserList::trim_url_for_display(short, 50), short);
    let query = "abcdefghijklmnopqrstuvwxyzABCDEFGHIJKLMNOPQRSTUVWXYZ0123456789";
    let long = format!("https://a.example/s?{} (visited 1 times, just now)", query);
    assert_eq!(
        BrowserList::trim_url_for_display(&long, 50),
        format!("https://a.example/s?{}... (visited 1 times, just now)", &query[..49])
    );
    let bare = format!("https://a.example/s?{}", query);
    assert_eq!(
        BrowserList::trim_url_for_display(&bare, 50),
        format!("https://a.example/s?{}...", &query[..49])
    );
    assert_eq!(query.len(), 62);
    assert_eq!(BrowserList::trim_url_for_display(&bare, 63), bare);
    assert_eq!(
        BrowserList::trim_url_for_display(&bare, 62),
        format!("https://a.example/s?{}...", &query[..61])
    );
    assert_eq!(BrowserList::trim_url_for_display(&bare, 0), "https://a.example/s...");
    assert_eq!(BrowserList::trim_url_for_display("https://a.example/", 5), "https://a.example/");
    assert_eq!(BrowserList::trim_url_for_display("", 5), "");
    assert_eq!(
        BrowserList::trim_url_for_display("https://a (visited ?aaaaaaaa times)", 3),
        "https://a (visited ?aaaaaaaa times)"
    );
    assert_eq!(
        BrowserList::trim_url_for_display("u?q=1 (visited 1) (visited 2 times, x)", 3),
        "u?q=... (visited 2 times, x)"
    );
    assert_eq!(
        BrowserList::trim_url_for_display("u?a?bcdef", 4),
        "u?a?b..."
    );
}

#[test]
fn positions_are_counted_in_characters() {
    assert_eq!(find_last("abcabc", "bc"), Some(4));
    assert_eq!(find_last("abcabc", "abc"), Some(3));
    assert_eq!(find_last("abcabc", "abcabc"), Some(0));
    assert_eq!(find_last("abcabc", "abcabcd"), None);
    assert_eq!(find_last("abcabc", "x"), None);
    assert_eq!(find_last("abc", ""), Some(3));
    assert_eq!(find_last("", ""), Some(0));
    assert_eq!(find_last("", "a"), None);
    assert_eq!(find_last("aaa", "aa"), Some(1));
    assert_eq!(find_first("a?b?c", '?'), Some(1));
    assert_eq!(find_first("?", '?'), Some(0));
    assert_eq!(find_first("abc", '?'), None);
    assert_eq!(find_first("", '?'), None);
    assert_eq!(find_first("日本語?検索", '?'), Some(3));
    assert_eq!(find_first("日本語?検索", '検'), Some(4));
    assert_eq!(find_last("äöü äöü", "öü"), Some(5));
    assert_eq!(find_last("日本語 (visited 1) 日本語 (visited 2)", " (visited"), Some(19));
}

#[test]
fn long_queries_are_cut_by_characters() {
    let line = "https://例え.example/検索?q=日本語のとても長い検索の文字列 (visited 2 times, 3 days ago)";
    assert_eq!(BrowserList::trim_url_for_display(line, 50), line);
    assert_eq!(
        BrowserList::trim_url_for_display(line, 6),
        "https://例え.example/検索?q=日本語... (visited 2 times, 3 days ago)"
    );
    assert_eq!(
        BrowserList::trim_url_for_display("é?ééééé", 3),
        "é?éé..."
    );
    assert_eq!(BrowserList::trim_url_for_display("é?éé", 3), "é?éé");
}

#[test]
fn thumbnails_are_made_once_per_window() {
    let mut cache: ThumbnailCache<String> = ThumbnailCache::new();
    let mut made = 0;
    assert_eq!(
        cache.get_or_create_thumbnail(7, |hwnd| {
            made += 1;
            Some(format!("picture of {}", hwnd))
        }),
        Some(&"picture of 7".to_string())
    );
    assert_eq!(
        cache.get_or_create_thumbnail(7, |_| {
            made += 1;
            Some("another".to_string())
        }),
        Some(&"picture of 7".to_string())
    );
    assert_eq!(
        cache.get_or_create_thumbnail(8, |_| {
            made += 1;
            None
        }),
        None
    );
    assert_eq!(
        cache.get_or_create_thumbnail(8, |_| {
            made += 1;
            Some("late".to_string())
        }),
        Some(&"late".to_string())
    );
    assert_eq!(made, 3);
    cache.clear();
    assert_eq!(
        cache.get_or_create_thumbnail(7, |_| {
            made += 1;
            Some("new".to_string())
        }),
        Some(&"new".to_string())
    );
    assert_eq!(made, 4);
}

#[test]
fn substrings_are_found_by_characters() {
    assert!(contains("", ""));
    assert!(contains("abc", ""));
    assert!(contains("abc", "abc"));
    assert!(contains("abc", "a"));
    assert!(contains("abc", "c"));
    assert!(contains("abcabd", "abd"));
    assert!(contains("aaab", "aab"));
    assert!(!contains("abc", "abcd"));
    assert!(!contains("", "a"));
    assert!(!contains("abc", "ac"));
    assert!(!contains("abc", "B"));
    assert!(contains("日本語検索", "語検"));
    assert!(!contains("日本語検索", "語索"));
    assert!(contains("ÄÖÜ", "Ö"));
    assert_eq!(chars_of("aé日"), vec!['a', 'é', '日']);
    assert!(chars_of("").is_empty());
}
