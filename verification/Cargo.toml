[package]
name = "micro"
version = "0.1.0"
edition = "2021"
publish = false

[dependencies]
chrono = "=0.4.45"
redis = { version = "=0.32.7", features = ["tokio-comp"] }
redis-derive = "=0.2.0"
sqlx = { version = "=0.6.3", features = ["mysql", "runtime-tokio-rustls"] }
tonic = "=0.9.2"
prost = "=0.11.9"
tokio = { version = "=1.54.1", features = ["full"] }
futures = "=0.3.34"
serde = { version = "=1.0.229", features = ["derive"] }
thiserror = "=1.0.69"
dotenvy = "=0.15.7"
tracing-subscriber = "=0.3.23"
tonic-reflection = "=0.9.2"
prost-types = "=0.11.9"
