[package]
name = "spice_runtime"
version = "0.1.0"
edition = "2021"
publish = false

[dependencies]
ansi_term = "=0.12.1"
arrow = "=59.3.1"
arrow-flight = { version = "=59.3.1", features = ["flight-sql-experimental"] }
arrow-ipc = "=59.3.1"
async-trait = "=0.1.92"
axum = "=0.8.9"
bigdecimal = "=0.4.11"
clap = { version = "=4.6.7", features = ["derive"] }
datafusion = { version = "*", default-features = false }
duckdb = "*"
futures = "=0.3.34"
metrics = "=0.24.6"
prost = "=0.14.4"
reqwest = { version = "*", default-features = false, features = ["json"] }
rustyline = "=19.0.0"
secrecy = "=0.10.3"
serde = { version = "=1.0.229", features = ["derive"] }
serde_yaml = "=0.9.34"
snafu = "=0.9.2"
tokio-postgres = "*"
tokio = { version = "=1.54.1", features = ["macros", "net", "rt-multi-thread", "sync", "time"] }
tonic = "=0.14.6"
tracing = "=0.1.44"
