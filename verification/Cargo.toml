[package]
name = "my_launcher"
version = "0.1.0"
edition = "2021"
publish = false

[dependencies]
chrono = "0.4"
env_logger = "0.10"
futures-util = "0.3"
lazy_static = "1"
log = "0.4"
open = "5"
rusqlite = "0.31"
serde = { version = "1", features = ["derive"] }
serde_json = "1"
tokio = { version = "1", features = ["full"] }
tokio-tungstenite = "0.21"
urlencoding = "2"
winapi = { version = "0.3", features = ["dwmapi", "handleapi", "minwindef", "processthreadsapi", "psapi", "windef", "wingdi", "winnt", "winuser"] }
