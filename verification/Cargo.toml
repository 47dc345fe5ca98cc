[package]
name = "threaded_logger"
version = "0.1.0"
edition = "2021"

[dependencies]
crossbeam = "=0.8.5"
log = { version = "=0.4.34", features = ["std"] }
once_cell = "=1.21.4"
tokio = { version = "=1.53.2", features = ["rt"] }
