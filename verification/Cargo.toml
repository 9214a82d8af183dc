[package]
name = "diffusion_server"
version = "0.1.0"
edition = "2021"
publish = false

[dependencies]
tokio = { version = "1", features = ["sync", "rt-multi-thread", "macros", "time"] }
base64 = "0.13"
image = { version = "0.24", default-features = false, features = ["png"] }
uuid = { version = "1", features = ["v4"] }
serde = { version = "1", features = ["derive"] }
actix-web = { version = "4", default-features = false, features = ["macros"] }
tracing = "0.1"
tracing-subscriber = { version = "0.3", features = ["env-filter"] }
