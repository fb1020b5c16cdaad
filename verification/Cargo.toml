[package]
name = "forgebar"
version = "0.1.0"
edition = "2021"
publish = false

[dependencies]
chrono = "*"
serde_json = "*"
tokio = { version = "*", features = ["rt-multi-thread", "net", "io-util"] }
glib = "*"
gtk4 = "*"
gtk4-layer-shell = "*"
