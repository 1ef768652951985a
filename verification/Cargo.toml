[package]
name = "hacksawdio"
version = "0.1.0"
edition = "2021"
publish = false

[dependencies]
url = "2"
sanitize-filename = "*"
reqwest = { version = "0.12", default-features = false, features = ["json", "stream"] }
tokio = { version = "1", features = ["rt-multi-thread", "fs", "io-util", "macros"] }
futures = "0.3"
serde = { version = "1", features = ["derive"] }
serde_json = "1"
thiserror = "1"
diesel = { version = "2", features = ["sqlite", "r2d2", "chrono"] }
diesel_migrations = "2"
libsqlite3-sys = { version = "*", features = ["bundled"] }
r2d2 = "0.8"
chrono = "0.4"
uuid = { version = "1", features = ["v4"] }
