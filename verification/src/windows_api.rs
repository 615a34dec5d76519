//! The window list of a platform that has none.
//!
//! Listing windows and raising one are services of the desktop.  Where the
//! desktop offers them, the program supplies its own
//! [`WindowManager`](crate::engine::window_manager::WindowManager); these
//! functions are what is left where it does not.

use vstd::prelude::*;
use crate::engine::window_manager::WindowInfo;

verus! {

/// The windows of a platform without a window list: none.
pub fn enumerate_windows() -> (r: Vec<WindowInfo>)
    ensures
        r@.len() == 0,
{
    Vec::new()
}

/// Brings a window to the front; without a window list there is nothing to
/// bring.
pub fn switch_to_window(hwnd: isize) {
}

} // verus!
