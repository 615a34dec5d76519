pub mod search_filter;
pub mod window_filter;

pub use search_filter::{search_items, SearchFilter, Searchable};
pub use window_filter::{
    filter_windows, CompositeFilter, FilterMode, TaskbarWindowFilter, WindowFilter,
};
