[package]
name = "yt_downloader"
version = "0.1.0"
edition = "2021"
publish = false

[dependencies]
youtube_dl = { version = "0.10", default-features = false, features = ["tokio", "downloader-rustls-tls"] }
tokio = { version = "1", features = ["rt-multi-thread", "macros", "sync", "fs"] }
reqwest = { version = "0.12", default-features = false, features = ["rustls-tls"] }
