[package]
name = "tiktok_re_embed"
version = "0.1.0"
edition = "2021"
publish = false

[dependencies]
kankyo = "=0.3.0"
miette = "=5.10.0"
paris = { version = "=1.5.15", features = ["macros"] }
reqwest = { version = "=0.11.27", features = ["json"] }
serde = { version = "=1.0.229", features = ["derive"] }
serenity = "=0.11.7"
tokio = { version = "=1.53.2", features = ["macros", "rt-multi-thread"] }
