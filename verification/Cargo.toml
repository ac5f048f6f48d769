[package]
name = "zotero"
version = "0.1.0"
edition = "2021"
publish = false

[dependencies]
md-5 = "0.10"
url = "2"
urlencoding = "2"
serde = { version = "1", features = ["derive"] }
serde_json = "1"
reqwest = { version = "0.12", default-features = false, features = ["json"] }
tokio = { version = "1", features = ["rt-multi-thread", "macros", "fs", "time"] }
