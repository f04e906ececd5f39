[package]
name = "com_terminal"
version = "0.1.0"
edition = "2021"
publish = false

[dependencies]
iced = { version = "0.13", default-features = false, features = ["tiny-skia", "tokio"] }
serialport = { version = "4", default-features = false }
tokio = { version = "1", features = ["rt-multi-thread", "macros", "sync", "time", "io-util"] }
tokio-serial = { version = "5", default-features = false }
crossbeam-channel = "0.5"
futures = "0.3"
plotters = { version = "0.3", default-features = false, features = ["line_series"] }
plotters-iced = "0.11"
