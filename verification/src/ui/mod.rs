pub mod alt_tab_app;
pub mod alt_tab_grid;
pub mod browser_list;
pub mod launcher_app;
