[package]
name = "thermav_lib"
version = "0.1.0"
edition = "2021"
publish = false

[dependencies]
syn = { version = "=2.0.119", features = ["full"] }
proc-macro2 = "=1.0.107"
quote = "=1.0.47"
prettyplease = "=0.2.37"
serde = { version = "=1.0.229", features = ["derive"] }
serde_json = { version = "=1.0.154", features = ["preserve_order"] }
tokio = { version = "=1.54.1", features = ["full"] }
axum = "=0.8.9"
utoipa = "=6.0.0"
utoipa-swagger-ui = { version = "=10.0.2", features = ["axum", "vendored"] }
rumqttc = { version = "=0.25.1", default-features = false }
tokio-modbus = { version = "=0.17.0", default-features = false, features = ["rtu"] }
tokio-serial = { version = "=5.5.0", default-features = false }
config = { version = "=0.15.27", default-features = false, features = ["toml", "json"] }
log = "=0.4.34"
pretty_env_logger = "=0.5.0"
