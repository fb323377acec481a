[package]
name = "raw_input"
version = "0.1.0"
edition = "2021"
publish = false

[dependencies]
winapi = { version = "0.3", features = ["winuser", "windef", "minwindef", "winnt", "ntdef", "hidpi", "hidusage", "dwmapi", "wingdi", "libloaderapi", "processthreadsapi"] }
