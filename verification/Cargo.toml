[package]
name = "log_benchmark"
version = "0.1.0"
edition = "2021"
publish = false

[dependencies]
anyhow = "*"
chrono = "*"
env_logger = "*"
fern = "*"
ftlog = "*"
log = "*"
log4rs = "*"
rand = "*"
slog = "*"
slog-async = "*"
slog-term = "*"
time = "*"
tracing = "*"
tracing-subscriber = { version = "*", features = ["time"] }
