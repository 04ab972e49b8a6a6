[package]
name = "lupin"
version = "0.1.0"
edition = "2021"
publish = false

[dependencies]
rand = "0.8"
enigo = "0.2"
serde = { version = "1", features = ["derive"] }
tokio = { version = "1", features = ["rt", "rt-multi-thread", "macros", "sync", "time"] }
