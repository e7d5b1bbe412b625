[package]
name = "youtube_audio_pipeline"
version = "0.1.0"
edition = "2021"
publish = false

[dependencies]
actix-multipart = { version = "0.6", default-features = false }
actix-web = { version = "4", default-features = false, features = ["macros"] }
env_logger = "0.10"
futures-util = "0.3"
log = "0.4"
rdkafka = { version = "0.36", default-features = false, features = ["tokio"] }
serde = { version = "1", features = ["derive"] }
serde_json = "1"
tokio = { version = "1", features = ["time"] }
uuid = { version = "1", features = ["v4"] }
