[package]
name = "siege"
version = "0.1.0"
edition = "2021"
publish = false

[dependencies]
rand = "0.9"
serde = { version = "1", features = ["derive"] }
serde_json = "1"
thiserror = "2"
tokio = { version = "1", features = ["macros", "rt-multi-thread", "sync", "time", "signal"] }
tokio-stream = { version = "0.1", features = ["sync"] }
tokio-util = "0.7"
futures = "0.3"
actix-web = "4"
actix-cors = "0.7"
clap = { version = "4", features = ["derive"] }
utoipa = "5"
reqwest = { version = "0.12", default-features = false, features = ["json"] }
rdkafka = "*"
