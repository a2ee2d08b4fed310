[package]
name = "qdrin_core"
version = "0.1.0"
edition = "2021"
publish = false

[dependencies]
tokio = { version = "=1.53.2", features = ["rt-multi-thread", "macros", "time"] }
warp = { version = "=0.4.3", features = ["server"] }

[dev-dependencies]
serde_json = "=1.0.151"
