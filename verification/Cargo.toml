[package]
name = "libdplyr"
version = "0.1.0"
edition = "2021"
publish = false

[dependencies]
clap = "4"
colored = "2"
serde = { version = "1", features = ["derive"] }
serde_json = "1"
thiserror = "1"
libc = "0.2"
signal-hook = "0.3"
winapi = { version = "0.3", features = ["consoleapi", "wincon", "minwindef"] }
lazy_static = "1"
