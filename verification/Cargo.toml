[package]
name = "navicula"
version = "0.1.0"
edition = "2021"
publish = false

[dependencies]
dioxus = "0.3"
flume = "0.10"
futures-util = "0.3"
fxhash = "0.2"
log = "0.4"
tokio = { version = "1", features = ["rt", "time"] }
