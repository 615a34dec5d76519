pub mod browser_item;
pub mod browser_provider;
pub mod tab_item;
pub mod tab_provider;
pub mod window_item;
pub mod window_provider;
