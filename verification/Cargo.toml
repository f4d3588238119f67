[package]
name = "perceptlog"
version = "0.1.0"
edition = "2021"
publish = false

[dependencies]
vrl = { version = "=0.33.1", default-features = false, features = ["compiler", "value", "parser", "diagnostic", "path", "core", "stdlib-base", "enable_crypto_functions", "enable_env_functions", "enable_system_functions"] }
glob = "=0.3.4"
chrono = "=0.4.45"
num_cpus = "=1.17.0"
serde_json = "=1.0.151"
serde = { version = "=1.0.229", features = ["derive"] }
clap = { version = "=4.6.7", features = ["derive"] }
tokio = { version = "=1.53.2", features = ["rt", "rt-multi-thread", "macros", "fs", "io-util", "sync", "time"] }
notify = "=8.2.0"
anyhow = "=1.0.104"
toml = "=1.1.6"
