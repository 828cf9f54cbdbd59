[package]
name = "edge_server"
version = "0.1.0"
edition = "2021"
publish = false

[dependencies]
actix-tls = { version = "3", features = ["rustls"] }
actix-web = { version = "4", features = ["rustls"] }
actix-web-opentelemetry = { version = "0.13", features = ["metrics", "metrics-prometheus"] }
anyhow = "1"
clap = { version = "4", features = ["derive", "env"] }
dotenv = "0.15"
opentelemetry = { version = "0.18", features = ["metrics"] }
opentelemetry-prometheus = "0.11"
prometheus = { version = "0.13", features = ["process"] }
rustls = "0.20"
rustls-pemfile = "1"
serde = { version = "1", features = ["derive"] }
serde_json = "1"
tokio = { version = "1", features = ["macros", "rt-multi-thread", "signal"] }
tracing = "0.1"
tracing-subscriber = { version = "0.3", features = ["env-filter"] }
