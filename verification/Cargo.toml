[package]
name = "meteo_pipeline"
version = "0.1.0"
edition = "2021"
publish = false

[dependencies]
chrono = "*"
clap = "*"
env_logger = "*"
futures = "*"
geojson = "*"
log = "*"
minio = "*"
rdkafka = "*"
serde = { version = "*", features = ["derive"] }
serde_json = "*"
tokio = { version = "*", features = ["rt-multi-thread", "macros", "sync", "time"] }
