[package]
name = "catbox"
version = "0.1.0"
edition = "2021"
publish = false

[dependencies]
clap = { version = "=4.6.7", features = ["derive"] }
futures = "=0.3.34"
regex = "=1.13.1"
reqwest = { version = "=0.13.5", default-features = false, features = ["form", "multipart", "stream"] }
tokio = { version = "=1.53.2", features = ["macros", "rt-multi-thread", "fs"] }
tokio-util = { version = "=0.7.19", features = ["io"] }
url = "=2.5.8"
