[package]
name = "dbgatlas"
version = "0.1.0"
edition = "2021"
publish = false

[dependencies]
anyhow = "1"
clap = { version = "4", features = ["derive"] }
serde = { version = "1", features = ["derive"] }
serde_json = "1"
thiserror = "*"
toml = "*"
windows-sys = { version = "*", features = ["Win32_Foundation", "Win32_System_LibraryLoader"] }
