[package]
name = "gouide_daemon"
version = "0.1.0"
edition = "2021"
publish = false

[dependencies]
chrono = "*"
uuid = { version = "*", features = ["v4"] }
tokio = { version = "*", features = ["rt-multi-thread", "macros", "net", "signal", "sync", "time", "io-util"] }
fs4 = "*"
libc = "*"
