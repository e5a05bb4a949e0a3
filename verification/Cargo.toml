[package]
name = "johma_windows_enhanced"
version = "0.1.0"
edition = "2021"
publish = false

[dependencies]
chrono = "*"
clap = { version = "*", features = ["derive"] }
dirs = "*"
once_cell = "*"
open = "*"
serde = { version = "*", features = ["derive"] }
sysinfo = "*"
tabled = "*"
toml = "*"
urlencoding = "*"
winapi = { version = "*", features = ["combaseapi", "handleapi", "knownfolders", "lmaccess", "lmapibuf", "lmcons", "minwindef", "ntdef", "sddl", "shlobj", "winbase", "winnt"] }
