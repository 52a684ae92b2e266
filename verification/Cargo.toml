[package]
name = "gaudium"
version = "0.1.0"
edition = "2021"
publish = false

[dependencies]
arrayvec = "*"
lazy_static = "*"
num = "*"
smallvec = "*"
winapi = { version = "0.3", features = ["basetsd", "commctrl", "hidpi", "hidusage", "libloaderapi", "minwindef", "ntdef", "processthreadsapi", "winbase", "windef", "winerror", "winuser"] }
