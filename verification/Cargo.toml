[package]
name = "attestation"
version = "0.1.0"
edition = "2021"
publish = false

[dependencies]
base64 = "0.22"
josekit = "*"
serde_json = "1"
uuid = { version = "1", features = ["v4"] }
actix-web = { version = "4", default-features = false, features = ["macros"] }
tokio = { version = "1", features = ["macros", "rt-multi-thread"] }
reqwest = { version = "0.12", default-features = false, features = ["json"] }
anyhow = "1"
