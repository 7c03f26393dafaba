[package]
name = "spotify_to_youtube"
version = "0.1.0"
edition = "2021"
publish = false

[dependencies]
md5 = "=0.8.1"
urlencoding = "=2.1.3"
serde = { version = "=1.0.229", features = ["derive"] }
serde_json = "=1.0.151"
tokio = { version = "=1.53.2", features = ["rt", "rt-multi-thread", "macros", "time"] }
reqwest = { version = "=0.13.5", default-features = false, features = ["json", "form"] }
