[package]
name = "joshagachi_logic"
version = "0.1.0"
edition = "2021"
publish = false

[dependencies]
godot = "=0.4.5"
axum = "=0.7.9"
tokio = { version = "=1.54.1", features = ["full"] }
tower-http = { version = "=0.6.11", features = ["fs"] }
