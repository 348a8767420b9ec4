[package]
name = "mentionbot"
version = "0.1.0"
edition = "2021"
publish = false

[dependencies]
html2md = "=0.2.17"
urlencoding = "=2.1.3"
reqwest = { version = "=0.13.5", default-features = false, features = ["json", "query", "form"] }
serde = { version = "=1.0.229", features = ["derive"] }
serde_json = "=1.0.151"
tokio = { version = "=1.53.2", features = ["rt-multi-thread", "macros", "time"] }
dotenv = "=0.15.0"
oauth1-request = "=0.6.1"
