[package]
name = "cyanotype"
version = "0.1.0"
edition = "2021"
publish = false

[dependencies]
ac-ffmpeg = "*"
async-broadcast = "*"
async-trait = "*"
futures = "0.3"
thiserror = "*"
tokio = { version = "1", features = ["macros", "rt-multi-thread", "time"] }
tokio-stream = "*"
