[package]
name = "rts"
version = "0.1.0"
edition = "2021"
publish = false

[dependencies]
serde = { version = "1", features = ["derive"] }
serde_json = "1"
tokio = { version = "1", features = ["full"] }
log = "0.4"
env_logger = "0.11"
hecs = "0.10"
glam = "0.29"
mlua = { version = "0.10", features = ["lua54", "vendored"] }
font8x8 = "0.3"
image = { version = "0.25", default-features = false }
