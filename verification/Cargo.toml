[package]
name = "git_tui_cloner"
version = "0.1.0"
edition = "2021"
publish = false

[dependencies]
urlencoding = "2"
serde = { version = "1", features = ["derive"] }
serde_json = "1"
dirs = "5"
reqwest = { version = "0.12", default-features = false, features = ["json", "blocking"] }
git2 = { version = "0.19", default-features = false }
async-trait = "0.1"
