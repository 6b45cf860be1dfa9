[package]
name = "humours-server"
version = "0.1.0"
edition = "2021"
publish = false

[dependencies]
anyhow = "=1.0.104"
async-trait = "=0.1.92"
axum = { version = "=0.7.9", features = ["ws"] }
axum-server = { version = "=0.7.3", features = ["tls-rustls"] }
clap = { version = "=4.6.7", features = ["derive"] }
dirs = "=5.0.1"
futures-util = "=0.3.34"
num_cpus = "=1.17.0"
rcgen = "=0.12.1"
rustls-pemfile = "=2.2.0"
serde = { version = "=1.0.229", features = ["derive"] }
serde_json = "=1.0.154"
sysinfo = { version = "=0.33.1", default-features = false, features = ["system", "disk", "network"] }
thiserror = "=1.0.69"
tokio = { version = "=1.54.1", features = ["rt-multi-thread", "macros", "net", "sync", "time", "signal"] }
toml = "=0.8.23"
tracing = "=0.1.44"
tracing-subscriber = { version = "=0.3.23", features = ["env-filter"] }
