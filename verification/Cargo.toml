[package]
name = "myrient_downloader"
version = "0.1.0"
edition = "2021"
publish = false

[dependencies]
eframe = { version = "0.33", default-features = false, features = ["default_fonts", "glow", "x11"] }
futures-util = { version = "0.3", default-features = false, features = ["std"] }
myrient-filter = "=0.1.0"
reqwest = { version = "=0.12.28", default-features = false, features = ["stream"] }
tokio = { version = "=1.54.1", features = ["rt-multi-thread", "fs", "io-util"] }
