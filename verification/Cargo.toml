[package]
name = "placenet_home"
version = "0.1.0"
edition = "2021"
publish = false

[dependencies]
rcgen = { version = "0.13", features = ["x509-parser"] }
serde_json = "1"
uuid = { version = "1", features = ["v4"] }
ratatui = { version = "0.29", default-features = false }
tokio = { version = "1", features = ["full"] }
serde = { version = "1", features = ["derive"] }
axum = "0.7"
hyper = { version = "1", features = ["server", "client", "http1"] }
hyper-util = { version = "0.1", features = ["tokio"] }
http-body-util = "0.1"
tokio-rustls = { version = "0.26", default-features = false, features = ["ring", "logging", "tls12"] }
rustls = { version = "0.23", default-features = false, features = ["ring", "std", "logging", "tls12"] }
rumqttc = "0.24"
sqlx = { version = "0.8", default-features = false, features = ["runtime-tokio", "sqlite"] }
tracing = "0.1"
tracing-subscriber = "0.3"
dotenvy = "0.15"
libc = "0.2"
async-trait = "0.1"
bytes = "1"
tower = { version = "0.5", features = ["util"] }
tower-http = { version = "0.6", features = ["fs"] }
