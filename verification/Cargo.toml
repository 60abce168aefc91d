[package]
name = "glypho"
version = "0.1.0"
edition = "2021"
publish = false

[dependencies]
markdown = "=1.0.0"
axum = "=0.8.9"
tokio = { version = "=1.53.2", features = ["macros", "rt-multi-thread", "net", "sync", "time"] }
clap = { version = "=4.6.7", features = ["derive"] }
clap-stdin = "=0.8.1"
async-watcher = "=0.4.0"
asynk-strim = "=0.1.5"
datastar = { version = "=0.4.1", features = ["axum"] }
futures = "=0.3.34"
tower-http = { version = "=0.7.1", features = ["fs"] }
tracing = "=0.1.44"
tracing-subscriber = { version = "=0.3.23", features = ["env-filter", "fmt"] }
open = "=5.4.4"
eyre = "=0.6.14"
