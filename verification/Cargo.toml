[package]
name = "fs_events"
version = "0.1.0"
edition = "2021"
publish = false

[dependencies]
notify = "*"
notify-debouncer-full = "*"
tokio = { version = "1", features = ["macros", "rt-multi-thread"] }
