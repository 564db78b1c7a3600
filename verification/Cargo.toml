[package]
name = "critters"
version = "0.1.0"
edition = "2021"
publish = false

[dependencies]
rapier2d = "*"
nalgebra = "*"
axum = "*"
tokio = { version = "*", features = ["macros", "rt-multi-thread"] }
serde = { version = "*", features = ["derive"] }
serde_json = "*"
rand = "*"
tower-http = { version = "*", features = ["fs"] }
