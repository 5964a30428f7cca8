[package]
name = "chapaty_template"
version = "0.1.0"
edition = "2021"
publish = false

[dependencies]
anyhow = "1"
chrono = "0.4"
dotenvy = "0.15"
object_store = { version = "0.13", features = ["gcp"] }
rand = "0.9"
serde = { version = "1", features = ["derive"] }
strum = { version = "0.27", features = ["derive"] }
tokio = { version = "1", features = ["macros", "rt-multi-thread"] }
