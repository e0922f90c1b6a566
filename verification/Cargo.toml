[package]
name = "zkevm_bench"
version = "0.1.0"
edition = "2021"
publish = false

[dependencies]
http = "=1.5.0"
tokio-util = "=0.7.20"
serde = { version = "=1.0.229", features = ["derive"] }
serde_json = "=1.0.154"
anyhow = "=1.0.104"
thiserror = "=2.0.21"
tracing = "=0.1.44"
tracing-subscriber = { version = "=0.3.23", features = ["env-filter"] }
clap = { version = "=4.6.7", features = ["derive"] }
tokio = { version = "=1.54.1", features = ["macros", "rt-multi-thread", "time"] }
jsonrpsee = { version = "=0.26.1", default-features = false, features = ["http-client"] }
alloy-eips = { version = "=2.5.0", default-features = false }
alloy-genesis = { version = "=2.5.0", default-features = false }
walkdir = "=2.5.0"
rayon = "=1.12.0"
tempfile = "=3.27.0"
erased-serde = "=0.4.11"
async-trait = "=0.1.92"
strum = { version = "=0.27.2", features = ["derive"] }
sha2 = "=0.10.9"
alloy-chains = { version = "0.2", default-features = false }
