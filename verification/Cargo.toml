[package]
name = "rufin"
version = "0.1.0"
edition = "2021"
publish = false

[dependencies]
md5 = "*"
reqwest = { version = "*", default-features = false }
serde = { version = "1", features = ["derive"] }
serde_json = "1"
tokio = { version = "1", features = ["rt-multi-thread", "time"] }
tracing = "0.1"
gdk-pixbuf = "*"
