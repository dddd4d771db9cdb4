[package]
name = "catplus"
version = "0.1.0"
edition = "2021"
publish = false

[dependencies]
anyhow = "1"
base64 = "0.22"
clap = { version = "4", features = ["derive"] }
lazy_static = "1"
serde = { version = "1", features = ["derive"] }
serde_json = "1"
sha2 = "0.10"
sophia = { version = "0.8", features = ["jsonld"] }
sophia_api = "0.8"
sophia_turtle = "0.8"
uuid = { version = "1", features = ["v4"] }
zarrs = { version = "*", default-features = false }

[dev-dependencies]
sophia_isomorphism = "0.8"
