//! A launcher that finds windows, bookmarks, visited pages and browser tabs,
//! and the layer that keeps the launcher, the browser's extension and the
//! bridge between them in step.
//!
//! Three processes take part: the launcher, the extension inside the
//! browser, and a bridge that the browser spawns.  They share two things:
//! the list of the browser's tabs and a queue of commands to switch tabs.
//! Both live in the launcher, in a
//! [`TabManager`](engine::native_messaging::TabManager); the other two
//! processes reach them over a pipe, over native messaging and over a
//! WebSocket.  This crate holds the state, the messages, the envelope in
//! which they travel, and the rules by which each side answers; reading and
//! writing the transports is left to the program that uses it.
//!
//! Every rule is stated as a contract over the content of the values, such
//! as the characters of a string or the tabs of a list, and proved.  The
//! proofs rest on a few wrappers around calls that are not this crate's own:
//! case folding, trimming and the clock of the standard library, the JSON
//! parser and the percent encoder.  The doc comment of each says what is
//! taken on trust.

pub mod clock;
pub mod data;
pub mod engine;
pub mod filter;
pub mod framing;
pub mod ipc;
pub mod native_host;
pub mod text;
pub mod ui;
pub mod websocket_server;
pub mod websocket_types;
pub mod window_thumbnail;
pub mod windows_api;

pub use engine::{
    Action, LauncherCore, SearchEngine, SearchMode, SearchResult, WindowInfo, WindowManager,
};
pub use window_thumbnail::ThumbnailCache;
pub use windows_api::{enumerate_windows, switch_to_window};
