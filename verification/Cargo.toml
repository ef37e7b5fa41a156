[package]
name = "linux_clipboard"
version = "0.1.0"
edition = "2021"
publish = false

[dependencies]
base64 = "=0.22.1"
png = "=0.17.16"
emojis = "=0.9.1"
libc = "=0.2.191"
dirs = "=7.0.0"
uuid = { version = "=1.29.0", features = ["v4"] }
chrono = "=0.4.45"
x11rb = "=0.14.0"
leptess = "=0.14.0"
parking_lot = "=0.13.0"
tokio = { version = "=1.54.1", features = ["rt-multi-thread", "macros", "net", "io-util"] }
