[package]
name = "after_school"
version = "0.1.0"
edition = "2021"
publish = false

[dependencies]
axum = "=0.8.9"
bcrypt = "=0.19.3"
chrono = "=0.4.45"
jsonwebtoken = "=11.1.0"
serde = { version = "=1.0.229", features = ["derive"] }
serde_yml = "=0.0.13"
shellexpand = "=3.1.2"
tokio = { version = "=1.53.2", features = ["rt-multi-thread", "macros", "net"] }
tower-cookies = "=0.11.0"
